//! Events reported by a session's poll primitive, the connection lifecycle
//! states and the library's error type.
use vstd::prelude::*;
use crate::types::ChannelId;

verus! {

/// A discrete occurrence reported by the remote endpoint.
///
/// A closed enumeration; `Reconnecting` is synthesised locally when the
/// automatic reconnect path schedules an attempt, and `Unknown` carries the
/// raw numeric code of an event the library does not model.
#[derive(Debug, Clone, Copy, PartialEq, Eq, Structural)]
pub enum Event {
    NoEvent,
    ConnectSuccess,
    ConnectCryptError,
    ConnectFailed,
    ConnectionLost,
    ConnectMaxPayloadUpdated,
    CmdProcessing,
    CmdError,
    CmdSuccess,
    MySelfLoggedIn,
    MySelfLoggedOut,
    MySelfKicked,
    UserLoggedIn,
    UserLoggedOut,
    UserUpdate,
    UserJoined,
    UserLeft,
    TextMessage,
    ChannelCreated,
    ChannelUpdated,
    ChannelRemoved,
    ServerUpdate,
    ServerStatistics,
    FileNew,
    FileRemove,
    UserAccount,
    BannedUser,
    UserAccountCreated,
    UserAccountRemoved,
    UserStateChange,
    VideoCaptureFrame,
    MediaFileVideo,
    DesktopWindow,
    DesktopCursor,
    DesktopInput,
    UserRecordMediaFile,
    AudioBlock,
    InternalError,
    VoiceActivation,
    Hotkey,
    HotkeyTest,
    FileTransfer,
    DesktopWindowTransfer,
    StreamMediaFile,
    LocalMediaFile,
    AudioInput,
    UserFirstVoiceStreamPacket,
    SoundDeviceAdded,
    SoundDeviceRemoved,
    SoundDeviceUnplugged,
    SoundDeviceNewDefaultInput,
    SoundDeviceNewDefaultOutput,
    SoundDeviceNewDefaultInputComDevice,
    SoundDeviceNewDefaultOutputComDevice,
    Reconnecting { attempt: u32, delay_ms: u64 },
    Unknown(i32),
}

impl Event {
    /// A number identifying the variant alone, ignoring any payload.
    ///
    /// Two events describe the same kind of occurrence exactly when their
    /// kind indices are equal; filters match on this identity.
    pub open spec fn kind_index(&self) -> u64 {
        match self {
            Event::NoEvent => 0,
            Event::ConnectSuccess => 1,
            Event::ConnectCryptError => 2,
            Event::ConnectFailed => 3,
            Event::ConnectionLost => 4,
            Event::ConnectMaxPayloadUpdated => 5,
            Event::CmdProcessing => 6,
            Event::CmdError => 7,
            Event::CmdSuccess => 8,
            Event::MySelfLoggedIn => 9,
            Event::MySelfLoggedOut => 10,
            Event::MySelfKicked => 11,
            Event::UserLoggedIn => 12,
            Event::UserLoggedOut => 13,
            Event::UserUpdate => 14,
            Event::UserJoined => 15,
            Event::UserLeft => 16,
            Event::TextMessage => 17,
            Event::ChannelCreated => 18,
            Event::ChannelUpdated => 19,
            Event::ChannelRemoved => 20,
            Event::ServerUpdate => 21,
            Event::ServerStatistics => 22,
            Event::FileNew => 23,
            Event::FileRemove => 24,
            Event::UserAccount => 25,
            Event::BannedUser => 26,
            Event::UserAccountCreated => 27,
            Event::UserAccountRemoved => 28,
            Event::UserStateChange => 29,
            Event::VideoCaptureFrame => 30,
            Event::MediaFileVideo => 31,
            Event::DesktopWindow => 32,
            Event::DesktopCursor => 33,
            Event::DesktopInput => 34,
            Event::UserRecordMediaFile => 35,
            Event::AudioBlock => 36,
            Event::InternalError => 37,
            Event::VoiceActivation => 38,
            Event::Hotkey => 39,
            Event::HotkeyTest => 40,
            Event::FileTransfer => 41,
            Event::DesktopWindowTransfer => 42,
            Event::StreamMediaFile => 43,
            Event::LocalMediaFile => 44,
            Event::AudioInput => 45,
            Event::UserFirstVoiceStreamPacket => 46,
            Event::SoundDeviceAdded => 47,
            Event::SoundDeviceRemoved => 48,
            Event::SoundDeviceUnplugged => 49,
            Event::SoundDeviceNewDefaultInput => 50,
            Event::SoundDeviceNewDefaultOutput => 51,
            Event::SoundDeviceNewDefaultInputComDevice => 52,
            Event::SoundDeviceNewDefaultOutputComDevice => 53,
            Event::Reconnecting { .. } => 54,
            Event::Unknown(_) => 55,
        }
    }

    /// Returns the number identifying the variant alone.
    #[verifier::when_used_as_spec(kind_index)]
    pub fn kind(&self) -> (r: u64)
        ensures
            r == self.kind_index(),
    {
        match self {
            Event::NoEvent => 0,
            Event::ConnectSuccess => 1,
            Event::ConnectCryptError => 2,
            Event::ConnectFailed => 3,
            Event::ConnectionLost => 4,
            Event::ConnectMaxPayloadUpdated => 5,
            Event::CmdProcessing => 6,
            Event::CmdError => 7,
            Event::CmdSuccess => 8,
            Event::MySelfLoggedIn => 9,
            Event::MySelfLoggedOut => 10,
            Event::MySelfKicked => 11,
            Event::UserLoggedIn => 12,
            Event::UserLoggedOut => 13,
            Event::UserUpdate => 14,
            Event::UserJoined => 15,
            Event::UserLeft => 16,
            Event::TextMessage => 17,
            Event::ChannelCreated => 18,
            Event::ChannelUpdated => 19,
            Event::ChannelRemoved => 20,
            Event::ServerUpdate => 21,
            Event::ServerStatistics => 22,
            Event::FileNew => 23,
            Event::FileRemove => 24,
            Event::UserAccount => 25,
            Event::BannedUser => 26,
            Event::UserAccountCreated => 27,
            Event::UserAccountRemoved => 28,
            Event::UserStateChange => 29,
            Event::VideoCaptureFrame => 30,
            Event::MediaFileVideo => 31,
            Event::DesktopWindow => 32,
            Event::DesktopCursor => 33,
            Event::DesktopInput => 34,
            Event::UserRecordMediaFile => 35,
            Event::AudioBlock => 36,
            Event::InternalError => 37,
            Event::VoiceActivation => 38,
            Event::Hotkey => 39,
            Event::HotkeyTest => 40,
            Event::FileTransfer => 41,
            Event::DesktopWindowTransfer => 42,
            Event::StreamMediaFile => 43,
            Event::LocalMediaFile => 44,
            Event::AudioInput => 45,
            Event::UserFirstVoiceStreamPacket => 46,
            Event::SoundDeviceAdded => 47,
            Event::SoundDeviceRemoved => 48,
            Event::SoundDeviceUnplugged => 49,
            Event::SoundDeviceNewDefaultInput => 50,
            Event::SoundDeviceNewDefaultOutput => 51,
            Event::SoundDeviceNewDefaultInputComDevice => 52,
            Event::SoundDeviceNewDefaultOutputComDevice => 53,
            Event::Reconnecting { .. } => 54,
            Event::Unknown(_) => 55,
        }
    }

    /// Whether two events are the same variant, ignoring any payload.
    pub open spec fn spec_same_kind(&self, other: &Event) -> bool {
        self.kind_index() == other.kind_index()
    }

    /// Returns true when the two events are the same variant, ignoring
    /// any payload carried inside it.
    #[verifier::when_used_as_spec(spec_same_kind)]
    pub fn same_kind(&self, other: &Event) -> (r: bool)
        ensures
            r == self.spec_same_kind(other),
    {
        self.kind() == other.kind()
    }

    /// Whether the event reports a transport failure that the automatic
    /// reconnect path recovers from: a lost connection, a failed
    /// connection attempt, or a connection encryption error.
    pub open spec fn spec_is_reconnect_needed(&self) -> bool {
        self is ConnectionLost || self is ConnectFailed || self is ConnectCryptError
    }

    /// Returns true if the event calls for an automatic reconnect.
    #[verifier::when_used_as_spec(spec_is_reconnect_needed)]
    pub fn is_reconnect_needed(&self) -> (r: bool)
        ensures
            r == self.spec_is_reconnect_needed(),
    {
        matches!(self, Event::ConnectionLost | Event::ConnectFailed | Event::ConnectCryptError)
    }

    /// Whether the event calls for a reconnect, either by itself or because
    /// the caller listed its kind among extra reconnect triggers.
    pub open spec fn spec_is_reconnect_needed_with(&self, extra: Seq<Event>) -> bool {
        self.spec_is_reconnect_needed() || exists|i: int|
            0 <= i < extra.len() && self.spec_same_kind(&extra[i])
    }

    /// Returns true if the event calls for a reconnect, counting the
    /// caller's extra trigger kinds as well.
    pub fn is_reconnect_needed_with(&self, extra: &Vec<Event>) -> (r: bool)
        ensures
            r == self.spec_is_reconnect_needed_with(extra@),
    {
        if self.is_reconnect_needed() {
            return true;
        }
        let mut i: usize = 0;
        while i < extra.len()
            invariant
                0 <= i <= extra.len(),
                forall|j: int| 0 <= j < i ==> !self.spec_same_kind(&extra@[j]),
            decreases extra.len() - i,
        {
            if self.same_kind(&extra[i]) {
                return true;
            }
            i = i + 1;
        }
        false
    }
}

/// The lifecycle state of one session.
///
/// `Idle` is the initial state; `Disconnected` is re-enterable, never
/// terminal.
#[derive(Debug, Clone, Copy, PartialEq, Eq, Structural)]
pub enum ConnectionState {
    Idle,
    Connecting,
    Connected,
    LoggingIn,
    LoggedIn,
    Joining(ChannelId),
    Joined(ChannelId),
    Disconnected,
}

/// An error reported by the orchestration layer.
#[derive(Debug, Clone, Copy, PartialEq, Eq, Structural)]
pub enum Error {
    /// Initialisation of the underlying session library failed.
    InitFailed,
    /// A command was rejected, with the reported code.
    CommandFailed(i32),
    /// A connection attempt failed.
    ConnectFailed,
    /// Authentication failed.
    AuthFailed,
    /// A configuration or argument value was invalid.
    InvalidParam,
    /// The underlying client reported an error code.
    ClientError(i32),
}

} // verus!
