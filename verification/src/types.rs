//! Core value types: identifiers, bit-flag sets, user, channel and codec data.
use vstd::prelude::*;

verus! {

/// Strongly typed user id.
#[derive(Debug, Clone, Copy, PartialEq, Eq, Structural, Default)]
pub struct UserId(pub i32);

/// Strongly typed channel id.
#[derive(Debug, Clone, Copy, PartialEq, Eq, Structural, Default)]
pub struct ChannelId(pub i32);

/// Strongly typed id of one registered client session.
#[derive(Debug, Clone, Copy, PartialEq, Eq, Structural, Default)]
pub struct ClientId(pub i32);

/// Strongly typed remote file id.
#[derive(Debug, Clone, Copy, PartialEq, Eq, Structural, Default)]
pub struct FileId(pub i32);

/// Strongly typed transfer id.
#[derive(Debug, Clone, Copy, PartialEq, Eq, Structural, Default)]
pub struct TransferId(pub i32);

/// Subscription mask for user streams.
#[derive(Debug, Clone, Copy, PartialEq, Eq, Structural, Default)]
pub struct Subscriptions(u32);

impl Subscriptions {
    /// No subscriptions.
    pub const NONE: u32 = 0x00000000;
    /// User messages subscription flag.
    pub const USER_MSG: u32 = 0x00000001;
    /// Channel messages subscription flag.
    pub const CHANNEL_MSG: u32 = 0x00000002;
    /// Broadcast messages subscription flag.
    pub const BROADCAST_MSG: u32 = 0x00000004;
    /// Custom messages subscription flag.
    pub const CUSTOM_MSG: u32 = 0x00000008;
    /// Voice subscription flag.
    pub const VOICE: u32 = 0x00000010;
    /// Video capture subscription flag.
    pub const VIDEOCAPTURE: u32 = 0x00000020;
    /// Desktop subscription flag.
    pub const DESKTOP: u32 = 0x00000040;
    /// Desktop input subscription flag.
    pub const DESKTOPINPUT: u32 = 0x00000080;
    /// Media file subscription flag.
    pub const MEDIAFILE: u32 = 0x00000100;
    /// Intercept user messages flag.
    pub const INTERCEPT_USER_MSG: u32 = 0x00010000;
    /// Intercept channel messages flag.
    pub const INTERCEPT_CHANNEL_MSG: u32 = 0x00020000;
    /// Intercept custom messages flag.
    pub const INTERCEPT_CUSTOM_MSG: u32 = 0x00080000;
    /// Intercept voice streams flag.
    pub const INTERCEPT_VOICE: u32 = 0x00100000;
    /// Intercept video capture streams flag.
    pub const INTERCEPT_VIDEOCAPTURE: u32 = 0x00200000;
    /// Intercept desktop streams flag.
    pub const INTERCEPT_DESKTOP: u32 = 0x00400000;
    /// Intercept media file streams flag.
    pub const INTERCEPT_MEDIAFILE: u32 = 0x01000000;
    /// All subscription flags.
    pub const ALL: u32 = 0xFFFFFFFF;

    /// The raw bitmask, as seen by specifications.
    pub closed spec fn spec_raw(&self) -> u32 {
        self.0
    }

    /// Creates an empty subscription mask.
    pub fn new() -> (r: Self)
        ensures
            r.spec_raw() == 0,
    {
        Subscriptions(Self::NONE)
    }

    /// Creates a subscription mask with all flags set.
    pub fn all() -> (r: Self)
        ensures
            r.spec_raw() == 0xFFFFFFFFu32,
    {
        Subscriptions(Self::ALL)
    }

    /// Creates a subscription mask from raw bits.
    pub fn from_raw(raw: u32) -> (r: Self)
        ensures
            r.spec_raw() == raw,
    {
        Subscriptions(raw)
    }

    /// Adds a subscription flag.
    pub fn add(&mut self, flag: u32)
        ensures
            final(self).spec_raw() == old(self).spec_raw() | flag,
    {
        self.0 = self.0 | flag;
    }

    /// Removes a subscription flag.
    pub fn remove(&mut self, flag: u32)
        ensures
            final(self).spec_raw() == old(self).spec_raw() & !flag,
    {
        self.0 = self.0 & !flag;
    }

    /// Returns true if any bit of the flag is present.
    pub fn has(&self, flag: u32) -> (r: bool)
        ensures
            r == ((self.spec_raw() & flag) != 0),
    {
        (self.0 & flag) != 0
    }

    /// Returns the raw bitmask.
    pub fn raw(&self) -> (r: u32)
        ensures
            r == self.spec_raw(),
    {
        self.0
    }
}

/// Bitmask of user state flags.
#[derive(Debug, Clone, Copy, PartialEq, Eq, Structural, Default)]
pub struct UserState(u32);

impl UserState {
    /// No user state flags set.
    pub const NONE: u32 = 0x00000000;
    /// User is talking.
    pub const VOICE: u32 = 0x00000001;
    /// User voice is muted.
    pub const MUTE_VOICE: u32 = 0x00000002;
    /// User media file is muted.
    pub const MUTE_MEDIAFILE: u32 = 0x00000004;
    /// User has desktop sharing active.
    pub const DESKTOP: u32 = 0x00000008;
    /// User has video capture active.
    pub const VIDEOCAPTURE: u32 = 0x00000010;
    /// User is streaming media file audio.
    pub const MEDIAFILE_AUDIO: u32 = 0x00000020;
    /// User is streaming media file video.
    pub const MEDIAFILE_VIDEO: u32 = 0x00000040;

    /// The raw bitmask, as seen by specifications.
    pub closed spec fn spec_raw(&self) -> u32 {
        self.0
    }

    /// Creates a user state from raw bits.
    pub fn from_raw(raw: u32) -> (r: Self)
        ensures
            r.spec_raw() == raw,
    {
        UserState(raw)
    }

    /// Returns true if the user is talking.
    pub fn is_talking(&self) -> (r: bool)
        ensures
            r == ((self.spec_raw() & Self::VOICE) != 0),
    {
        (self.0 & Self::VOICE) != 0
    }

    /// Returns true if the user is muted.
    pub fn is_muted(&self) -> (r: bool)
        ensures
            r == ((self.spec_raw() & Self::MUTE_VOICE) != 0),
    {
        (self.0 & Self::MUTE_VOICE) != 0
    }

    /// Returns true if the user has video.
    pub fn has_video(&self) -> (r: bool)
        ensures
            r == ((self.spec_raw() & Self::VIDEOCAPTURE) != 0),
    {
        (self.0 & Self::VIDEOCAPTURE) != 0
    }

    /// Returns the raw bitmask.
    pub fn raw(&self) -> (r: u32)
        ensures
            r == self.spec_raw(),
    {
        self.0
    }
}

/// Channel type bitmask.
#[derive(Debug, Clone, Copy, PartialEq, Eq, Structural, Default)]
pub struct ChannelType(u32);

impl ChannelType {
    /// Default channel type.
    pub const DEFAULT: u32 = 0x0000;
    /// Permanent channel flag.
    pub const PERMANENT: u32 = 0x0001;
    /// Solo transmit flag.
    pub const SOLO_TRANSMIT: u32 = 0x0002;
    /// Classroom flag.
    pub const CLASSROOM: u32 = 0x0004;
    /// Operator receive-only flag.
    pub const OPERATOR_RECVONLY: u32 = 0x0008;
    /// Disable voice activation flag.
    pub const NO_VOICEACTIVATION: u32 = 0x0010;
    /// Disable recording flag.
    pub const NO_RECORDING: u32 = 0x0020;
    /// Hidden channel flag.
    pub const HIDDEN: u32 = 0x0040;

    /// The raw bitmask, as seen by specifications.
    pub closed spec fn spec_raw(&self) -> u32 {
        self.0
    }

    /// Creates from raw bits.
    pub fn from_raw(raw: u32) -> (r: Self)
        ensures
            r.spec_raw() == raw,
    {
        ChannelType(raw)
    }

    /// Returns the raw bitmask.
    pub fn raw(&self) -> (r: u32)
        ensures
            r == self.spec_raw(),
    {
        self.0
    }
}

/// Client flag bitmask.
#[derive(Debug, Clone, Copy, PartialEq, Eq, Structural, Default)]
pub struct ClientFlags(u32);

impl ClientFlags {
    /// Client is closed.
    pub const CLOSED: u32 = 0x00000000;
    /// Sound input is ready.
    pub const SNDINPUT_READY: u32 = 0x00000001;
    /// Sound output is ready.
    pub const SNDOUTPUT_READY: u32 = 0x00000002;
    /// Voice activation is enabled.
    pub const SNDINPUT_VOICEACTIVATED: u32 = 0x00000008;
    /// Transmitting voice.
    pub const TX_VOICE: u32 = 0x00000100;
    /// Currently connecting.
    pub const CONNECTING: u32 = 0x00002000;
    /// Connected.
    pub const CONNECTED: u32 = 0x00004000;
    /// Authorized.
    pub const AUTHORIZED: u32 = 0x00008000;

    /// The raw bitmask, as seen by specifications.
    pub closed spec fn spec_raw(&self) -> u32 {
        self.0
    }

    /// Creates from raw bits.
    pub fn from_raw(raw: u32) -> (r: Self)
        ensures
            r.spec_raw() == raw,
    {
        ClientFlags(raw)
    }

    /// Returns true if any bit of the flag is present.
    pub fn has(&self, flag: u32) -> (r: bool)
        ensures
            r == ((self.spec_raw() & flag) != 0),
    {
        (self.0 & flag) != 0
    }

    /// Returns the raw bitmask.
    pub fn raw(&self) -> (r: u32)
        ensures
            r == self.spec_raw(),
    {
        self.0
    }
}

/// Presence status of a user.
#[derive(Debug, Clone, Copy, PartialEq, Eq, Structural, Default)]
pub enum UserPresence {
    #[default]
    Available,
    Away,
    Question,
}

/// Gender metadata for a user profile.
#[derive(Debug, Clone, Copy, PartialEq, Eq, Structural, Default)]
pub enum UserGender {
    Male,
    Female,
    #[default]
    Neutral,
}

/// User status flags and presence metadata.
#[derive(Debug, Clone, Copy, PartialEq, Eq, Structural, Default)]
pub struct UserStatus {
    pub presence: UserPresence,
    pub gender: UserGender,
    pub video: bool,
    pub desktop: bool,
    pub streaming: bool,
    pub media_paused: bool,
}

/// The bit pattern that encodes a presence value.
pub open spec fn presence_code(p: UserPresence) -> u32 {
    match p {
        UserPresence::Available => 0u32,
        UserPresence::Away => 1u32,
        UserPresence::Question => 2u32,
    }
}

/// The bit pattern that encodes a gender value.
pub open spec fn gender_code(g: UserGender) -> u32 {
    match g {
        UserGender::Male => 0u32,
        UserGender::Female => 0x100u32,
        UserGender::Neutral => 0x1000u32,
    }
}

/// The status bit encoding as a mathematical function of the fields.
pub open spec fn status_bits(s: UserStatus) -> u32 {
    presence_code(s.presence) | gender_code(s.gender) | (if s.video {
        0x200u32
    } else {
        0u32
    }) | (if s.desktop {
        0x400u32
    } else {
        0u32
    }) | (if s.streaming {
        0x800u32
    } else {
        0u32
    }) | (if s.media_paused {
        0x2000u32
    } else {
        0u32
    })
}

/// The status decoding as a mathematical function of the bits.
pub open spec fn status_of_bits(bits: u32) -> UserStatus {
    UserStatus {
        presence: if bits & 0xFF == 1 {
            UserPresence::Away
        } else if bits & 0xFF == 2 {
            UserPresence::Question
        } else {
            UserPresence::Available
        },
        gender: if bits & 0x1000 != 0 {
            UserGender::Neutral
        } else if bits & 0x100 != 0 {
            UserGender::Female
        } else {
            UserGender::Male
        },
        video: bits & 0x200 != 0,
        desktop: bits & 0x400 != 0,
        streaming: bits & 0x800 != 0,
        media_paused: bits & 0x2000 != 0,
    }
}

impl UserStatus {
    /// Creates a status from raw bit flags.
    pub fn from_bits(bits: u32) -> (r: Self)
        ensures
            r == status_of_bits(bits),
    {
        let presence = if bits & 0xFF == 1 {
            UserPresence::Away
        } else if bits & 0xFF == 2 {
            UserPresence::Question
        } else {
            UserPresence::Available
        };
        let gender = if bits & 0x1000 != 0 {
            UserGender::Neutral
        } else if bits & 0x100 != 0 {
            UserGender::Female
        } else {
            UserGender::Male
        };
        UserStatus {
            presence,
            gender,
            video: bits & 0x200 != 0,
            desktop: bits & 0x400 != 0,
            streaming: bits & 0x800 != 0,
            media_paused: bits & 0x2000 != 0,
        }
    }

    /// Converts the status into raw bit flags.
    pub fn to_bits(&self) -> (r: u32)
        ensures
            r == status_bits(*self),
    {
        let p: u32 = match self.presence {
            UserPresence::Available => 0,
            UserPresence::Away => 1,
            UserPresence::Question => 2,
        };
        let g: u32 = match self.gender {
            UserGender::Male => 0,
            UserGender::Female => 0x100,
            UserGender::Neutral => 0x1000,
        };
        let v: u32 = if self.video {
            0x200
        } else {
            0
        };
        let d: u32 = if self.desktop {
            0x400
        } else {
            0
        };
        let st: u32 = if self.streaming {
            0x800
        } else {
            0
        };
        let m: u32 = if self.media_paused {
            0x2000
        } else {
            0
        };
        p | g | v | d | st | m
    }
}

/// Speex DSP preprocessing settings.
#[derive(Debug, Clone, Copy, PartialEq, Eq, Structural, Default)]
pub struct SpeexDSP {
    pub enable_agc: bool,
    pub gain_level: i32,
    pub max_inc_db_sec: i32,
    pub max_dec_db_sec: i32,
    pub max_gain_db: i32,
    pub enable_denoise: bool,
    pub max_noise_suppress_db: i32,
    pub enable_aec: bool,
    pub echo_suppress: i32,
    pub echo_suppress_active: i32,
}

/// Jitter control configuration.
#[derive(Debug, Clone, Copy, PartialEq, Eq, Structural, Default)]
pub struct JitterConfig {
    pub fixed_delay_ms: i32,
    pub use_adaptive: bool,
    pub max_adaptive_delay_ms: i32,
    pub active_adaptive_delay_ms: i32,
}

/// Video codec configuration.
#[derive(Debug, Clone, Copy, PartialEq, Eq, Structural, Default)]
pub struct VideoCodec {
    pub bitrate: i32,
    pub deadline: u32,
}

/// Keep-alive timing configuration.
#[derive(Debug, Clone, Copy, PartialEq, Eq, Structural, Default)]
pub struct ClientKeepAlive {
    pub lost_ms: i32,
    pub tcp_interval_ms: i32,
    pub udp_interval_ms: i32,
    pub udp_rtx_ms: i32,
    pub udp_connect_rtx_ms: i32,
    pub udp_timeout_ms: i32,
}

/// Flooding/abuse prevention limits.
#[derive(Debug, Clone, Copy, PartialEq, Eq, Structural, Default)]
pub struct AbusePrevention {
    pub commands_limit: i32,
    pub commands_interval_ms: i32,
}

/// Speex codec configuration.
#[derive(Debug, Clone, Copy, PartialEq, Eq, Structural, Default)]
pub struct SpeexCodec {
    pub bandmode: i32,
    pub quality: i32,
    pub tx_interval_msec: i32,
    pub stereo_playback: bool,
}

/// Speex variable-bitrate codec configuration.
#[derive(Debug, Clone, Copy, PartialEq, Eq, Structural, Default)]
pub struct SpeexVBRCodec {
    pub bandmode: i32,
    pub quality: i32,
    pub bitrate: i32,
    pub max_bitrate: i32,
    pub dtx: bool,
    pub tx_interval_msec: i32,
    pub stereo_playback: bool,
}

/// Opus codec configuration.
#[derive(Debug, Clone, Copy, PartialEq, Eq, Structural, Default)]
pub struct OpusCodec {
    pub sample_rate: i32,
    pub channels: i32,
    pub application: i32,
    pub complexity: i32,
    pub fec: bool,
    pub dtx: bool,
    pub bitrate: i32,
    pub vbr: bool,
    pub vbr_constraint: bool,
    pub tx_interval_msec: i32,
    pub frame_size_msec: i32,
}

/// Audio codec selection for a channel.
#[derive(Debug, Clone, Copy, PartialEq, Eq, Structural, Default)]
pub enum AudioCodec {
    #[default]
    NoCodec,
    Speex(SpeexCodec),
    SpeexVBR(SpeexVBRCodec),
    Opus(OpusCodec),
}

/// Audio configuration for a channel.
#[derive(Debug, Clone, Copy, PartialEq, Eq, Structural, Default)]
pub struct AudioConfig {
    pub enable_agc: bool,
    pub gain_level: i32,
}

/// A user snapshot carried by user-related events.
#[derive(Debug)]
pub struct User {
    pub id: UserId,
    pub username: String,
    pub nickname: String,
    pub user_data: i32,
    pub user_type: u32,
    pub ip_address: String,
    pub version: u32,
    pub channel_id: ChannelId,
    pub status: UserStatus,
    pub status_msg: String,
    pub state: UserState,
    pub local_subscriptions: Subscriptions,
    pub peer_subscriptions: Subscriptions,
    pub client_name: String,
}

impl Clone for User {
    /// The copy carries exactly the same fields.
    fn clone(&self) -> (res: Self)
        ensures
            res == *self,
    {
        User {
            id: self.id,
            username: self.username.clone(),
            nickname: self.nickname.clone(),
            user_data: self.user_data,
            user_type: self.user_type,
            ip_address: self.ip_address.clone(),
            version: self.version,
            channel_id: self.channel_id,
            status: self.status,
            status_msg: self.status_msg.clone(),
            state: self.state,
            local_subscriptions: self.local_subscriptions,
            peer_subscriptions: self.peer_subscriptions,
            client_name: self.client_name.clone(),
        }
    }
}

/// The kind of destination a text message was sent to.
#[derive(Debug, Clone, Copy, PartialEq, Eq, Structural, Default)]
pub enum TextMsgType {
    #[default]
    User,
    Channel,
    Broadcast,
    Custom,
}

/// Text message payload.
#[derive(Debug)]
pub struct TextMessage {
    pub msg_type: TextMsgType,
    pub from_id: UserId,
    pub from_username: String,
    pub to_id: UserId,
    pub channel_id: ChannelId,
    pub text: String,
    pub more: bool,
}

impl Clone for TextMessage {
    /// The copy carries exactly the same fields.
    fn clone(&self) -> (res: Self)
        ensures
            res == *self,
    {
        TextMessage {
            msg_type: self.msg_type,
            from_id: self.from_id,
            from_username: self.from_username.clone(),
            to_id: self.to_id,
            channel_id: self.channel_id,
            text: self.text.clone(),
            more: self.more,
        }
    }
}

/// Destination for sending text messages.
#[derive(Debug, Clone, Copy, PartialEq, Eq, Structural)]
pub enum MessageTarget {
    User(UserId),
    Channel(ChannelId),
    Broadcast,
}

impl TextMessage {
    /// Assembles an outgoing text message for a target: a user target
    /// sets the user-message type and the recipient id, a channel target
    /// sets the channel-message type and the channel id, and a broadcast
    /// sets the broadcast type with no recipient.
    pub fn outgoing(target: &MessageTarget, from: UserId, text: &str) -> (r: TextMessage)
        ensures
            r.msg_type == (match target {
                MessageTarget::User(_) => TextMsgType::User,
                MessageTarget::Channel(_) => TextMsgType::Channel,
                MessageTarget::Broadcast => TextMsgType::Broadcast,
            }),
            r.to_id == (match target {
                MessageTarget::User(id) => *id,
                _ => UserId(0),
            }),
            r.channel_id == (match target {
                MessageTarget::Channel(id) => *id,
                _ => ChannelId(0),
            }),
            r.from_id == from,
            r.text@ == text@,
            r.from_username@ == Seq::<char>::empty(),
            r.more == false,
    {
        let (msg_type, to_id, channel_id) = match target {
            MessageTarget::User(id) => (TextMsgType::User, *id, ChannelId(0)),
            MessageTarget::Channel(id) => (TextMsgType::Channel, UserId(0), *id),
            MessageTarget::Broadcast => (TextMsgType::Broadcast, UserId(0), ChannelId(0)),
        };
        TextMessage {
            msg_type,
            from_id: from,
            from_username: String::new(),
            to_id,
            channel_id,
            text: text.to_owned(),
            more: false,
        }
    }
}

impl MessageTarget {
    /// Returns the target that answers the sender of a message.
    pub fn reply_to(m: &TextMessage) -> (r: Self)
        ensures
            r == MessageTarget::User(m.from_id),
    {
        MessageTarget::User(m.from_id)
    }
}

impl From<UserId> for MessageTarget {
    /// A user id addresses that single user.
    fn from(id: UserId) -> (r: Self) {
        MessageTarget::User(id)
    }
}

impl vstd::std_specs::convert::FromSpecImpl<UserId> for MessageTarget {
    open spec fn obeys_from_spec() -> bool {
        true
    }

    open spec fn from_spec(id: UserId) -> Self {
        MessageTarget::User(id)
    }
}

impl From<ChannelId> for MessageTarget {
    /// A channel id addresses that channel.
    fn from(id: ChannelId) -> (r: Self) {
        MessageTarget::Channel(id)
    }
}

impl vstd::std_specs::convert::FromSpecImpl<ChannelId> for MessageTarget {
    open spec fn obeys_from_spec() -> bool {
        true
    }

    open spec fn from_spec(id: ChannelId) -> Self {
        MessageTarget::Channel(id)
    }
}

/// Channel definition and configuration.
#[derive(Debug)]
pub struct Channel {
    pub id: ChannelId,
    pub parent_id: ChannelId,
    pub name: String,
    pub topic: String,
    pub channel_type: ChannelType,
    pub has_password: bool,
    pub user_data: i32,
    pub disk_quota: i64,
    pub max_users: i32,
    pub audio_codec: AudioCodec,
    pub audio_cfg: AudioConfig,
    pub transmit_users: Vec<(UserId, u32)>,
    pub transmit_users_queue: Vec<UserId>,
    pub queue_delay_ms: i32,
    pub timeout_voice_ms: i32,
    pub timeout_media_ms: i32,
}

impl Channel {
    /// Creates a channel builder with a name.
    pub fn builder(name: &str) -> (r: ChannelBuilder)
        ensures
            r.spec_inner().name@ == name@,
            ChannelBuilder::spec_blank(r.spec_inner()),
    {
        ChannelBuilder::new(name)
    }
}

/// Builder for channel configuration.
pub struct ChannelBuilder {
    inner: Channel,
}

impl ChannelBuilder {
    /// The channel assembled so far.
    pub closed spec fn spec_inner(&self) -> Channel {
        self.inner
    }

    /// Every field but the name holds its blank starting value.
    pub open spec fn spec_blank(c: Channel) -> bool {
        &&& c.id == ChannelId(0)
        &&& c.parent_id == ChannelId(0)
        &&& c.topic@ == Seq::<char>::empty()
        &&& c.channel_type.spec_raw() == 0
        &&& c.has_password == false
        &&& c.user_data == 0
        &&& c.disk_quota == 0
        &&& c.max_users == 0
        &&& c.audio_codec == AudioCodec::NoCodec
        &&& c.audio_cfg == (AudioConfig { enable_agc: false, gain_level: 0 })
        &&& c.transmit_users@ == Seq::<(UserId, u32)>::empty()
        &&& c.transmit_users_queue@ == Seq::<UserId>::empty()
        &&& c.queue_delay_ms == 0
        &&& c.timeout_voice_ms == 0
        &&& c.timeout_media_ms == 0
    }

    /// Creates a new builder with the channel name.
    pub fn new(name: &str) -> (r: Self)
        ensures
            r.spec_inner().name@ == name@,
            Self::spec_blank(r.spec_inner()),
    {
        ChannelBuilder {
            inner: Channel {
                id: ChannelId(0),
                parent_id: ChannelId(0),
                name: name.to_owned(),
                topic: String::new(),
                channel_type: ChannelType(0),
                has_password: false,
                user_data: 0,
                disk_quota: 0,
                max_users: 0,
                audio_codec: AudioCodec::NoCodec,
                audio_cfg: AudioConfig { enable_agc: false, gain_level: 0 },
                transmit_users: Vec::new(),
                transmit_users_queue: Vec::new(),
                queue_delay_ms: 0,
                timeout_voice_ms: 0,
                timeout_media_ms: 0,
            },
        }
    }

    /// Sets the parent channel id.
    pub fn parent(self, id: ChannelId) -> (r: Self)
        ensures
            r.spec_inner() == (Channel { parent_id: id, ..self.spec_inner() }),
    {
        let mut b = self;
        b.inner.parent_id = id;
        b
    }

    /// Sets the channel topic.
    pub fn topic(self, topic: &str) -> (r: Self)
        ensures
            r.spec_inner().topic@ == topic@,
            r.spec_inner() == (Channel { topic: r.spec_inner().topic, ..self.spec_inner() }),
    {
        let mut b = self;
        b.inner.topic = topic.to_owned();
        b
    }

    /// Sets the channel type flags.
    pub fn channel_type(self, t: ChannelType) -> (r: Self)
        ensures
            r.spec_inner() == (Channel { channel_type: t, ..self.spec_inner() }),
    {
        let mut b = self;
        b.inner.channel_type = t;
        b
    }

    /// Sets the maximum number of users.
    pub fn max_users(self, max: i32) -> (r: Self)
        ensures
            r.spec_inner() == (Channel { max_users: max, ..self.spec_inner() }),
    {
        let mut b = self;
        b.inner.max_users = max;
        b
    }

    /// Sets the audio codec configuration.
    pub fn codec(self, codec: AudioCodec) -> (r: Self)
        ensures
            r.spec_inner() == (Channel { audio_codec: codec, ..self.spec_inner() }),
    {
        let mut b = self;
        b.inner.audio_codec = codec;
        b
    }

    /// Builds the channel.
    pub fn build(self) -> (r: Channel)
        ensures
            r == self.spec_inner(),
    {
        self.inner
    }
}

/// User account definition.
#[derive(Debug)]
pub struct UserAccount {
    pub username: String,
    pub password: String,
    pub user_type: u32,
    pub user_rights: u32,
    pub note: String,
    pub init_channel: String,
    pub user_data: i32,
    pub auto_operator_channels: Vec<ChannelId>,
    pub audio_codec_bps_limit: i32,
    pub abuse_prevent: AbusePrevention,
}

impl Clone for UserAccount {
    /// The copy carries exactly the same fields; the channel list is
    /// copied element for element.
    fn clone(&self) -> (res: Self)
        ensures
            res.username == self.username,
            res.password == self.password,
            res.user_type == self.user_type,
            res.user_rights == self.user_rights,
            res.note == self.note,
            res.init_channel == self.init_channel,
            res.user_data == self.user_data,
            res.auto_operator_channels@ == self.auto_operator_channels@,
            res.audio_codec_bps_limit == self.audio_codec_bps_limit,
            res.abuse_prevent == self.abuse_prevent,
    {
        let res = UserAccount {
            username: self.username.clone(),
            password: self.password.clone(),
            user_type: self.user_type,
            user_rights: self.user_rights,
            note: self.note.clone(),
            init_channel: self.init_channel.clone(),
            user_data: self.user_data,
            auto_operator_channels: clone_id_vec(&self.auto_operator_channels),
            audio_codec_bps_limit: self.audio_codec_bps_limit,
            abuse_prevent: self.abuse_prevent,
        };
        res
    }
}

/// Copies a vector of channel ids element for element.
fn clone_id_vec(v: &Vec<ChannelId>) -> (r: Vec<ChannelId>)
    ensures
        r@ == v@,
{
    let mut r: Vec<ChannelId> = Vec::new();
    let mut i: usize = 0;
    while i < v.len()
        invariant
            0 <= i <= v.len(),
            r@ =~= v@.take(i as int),
        decreases v.len() - i,
    {
        r.push(v[i]);
        proof {
            assert(r@ =~= v@.take((i + 1) as int));
        }
        i = i + 1;
    }
    proof {
        assert(v@.take(v@.len() as int) =~= v@);
    }
    r
}

impl UserAccount {
    /// Creates a user account builder.
    pub fn builder(username: &str) -> (r: UserAccountBuilder)
        ensures
            r.spec_inner().username@ == username@,
            r.spec_inner().password@ == Seq::<char>::empty(),
            r.spec_inner().user_type == 0,
            r.spec_inner().user_rights == 0,
    {
        UserAccountBuilder::new(username)
    }
}

/// Builder for user account configuration.
pub struct UserAccountBuilder {
    inner: UserAccount,
}

impl UserAccountBuilder {
    /// The account assembled so far.
    pub closed spec fn spec_inner(&self) -> UserAccount {
        self.inner
    }

    /// Creates a new builder with the username.
    pub fn new(username: &str) -> (r: Self)
        ensures
            r.spec_inner().username@ == username@,
            r.spec_inner().password@ == Seq::<char>::empty(),
            r.spec_inner().user_type == 0,
            r.spec_inner().user_rights == 0,
            r.spec_inner().note@ == Seq::<char>::empty(),
            r.spec_inner().init_channel@ == Seq::<char>::empty(),
            r.spec_inner().user_data == 0,
            r.spec_inner().auto_operator_channels@ == Seq::<ChannelId>::empty(),
            r.spec_inner().audio_codec_bps_limit == 0,
    {
        UserAccountBuilder {
            inner: UserAccount {
                username: username.to_owned(),
                password: String::new(),
                user_type: 0,
                user_rights: 0,
                note: String::new(),
                init_channel: String::new(),
                user_data: 0,
                auto_operator_channels: Vec::new(),
                audio_codec_bps_limit: 0,
                abuse_prevent: AbusePrevention { commands_limit: 0, commands_interval_ms: 0 },
            },
        }
    }

    /// Sets the account password.
    pub fn password(self, pass: &str) -> (r: Self)
        ensures
            r.spec_inner().password@ == pass@,
            r.spec_inner() == (UserAccount { password: r.spec_inner().password, ..self.spec_inner() }),
    {
        let mut b = self;
        b.inner.password = pass.to_owned();
        b
    }

    /// Sets the user type.
    pub fn user_type(self, t: u32) -> (r: Self)
        ensures
            r.spec_inner() == (UserAccount { user_type: t, ..self.spec_inner() }),
    {
        let mut b = self;
        b.inner.user_type = t;
        b
    }

    /// Sets the user rights.
    pub fn rights(self, r_bits: u32) -> (r: Self)
        ensures
            r.spec_inner() == (UserAccount { user_rights: r_bits, ..self.spec_inner() }),
    {
        let mut b = self;
        b.inner.user_rights = r_bits;
        b
    }

    /// Builds the user account.
    pub fn build(self) -> (r: UserAccount)
        ensures
            r == self.spec_inner(),
    {
        self.inner
    }
}

/// Encoding then decoding a status restores every field.
///
/// The presence byte, the gender bits and each boolean flag occupy disjoint
/// bit ranges, so the decoding recovers exactly the encoded value.
pub proof fn lemma_status_bits_roundtrip(s: UserStatus)
    ensures
        status_of_bits(status_bits(s)) == s,
{
    let p = presence_code(s.presence);
    let g = gender_code(s.gender);
    let v: u32 = if s.video {
        0x200
    } else {
        0
    };
    let d: u32 = if s.desktop {
        0x400
    } else {
        0
    };
    let st: u32 = if s.streaming {
        0x800
    } else {
        0
    };
    let m: u32 = if s.media_paused {
        0x2000
    } else {
        0
    };
    let bits = status_bits(s);
    assert({
        &&& bits & 0xFF == p
        &&& (bits & 0x1000 != 0) == (g == 0x1000)
        &&& (bits & 0x100 != 0) == (g == 0x100)
        &&& (bits & 0x200 != 0) == (v == 0x200)
        &&& (bits & 0x400 != 0) == (d == 0x400)
        &&& (bits & 0x800 != 0) == (st == 0x800)
        &&& (bits & 0x2000 != 0) == (m == 0x2000)
    }) by (bit_vector)
        requires
            bits == p | g | v | d | st | m,
            p == 0 || p == 1 || p == 2,
            g == 0 || g == 0x100 || g == 0x1000,
            v == 0 || v == 0x200,
            d == 0 || d == 0x400,
            st == 0 || st == 0x800,
            m == 0 || m == 0x2000,
    ;
}

} // verus!
