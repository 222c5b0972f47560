use teamtalk::types::Channel;
use teamtalk::types::ChannelId;
use teamtalk::types::ChannelType;
use teamtalk::types::ClientFlags;
use teamtalk::types::MessageTarget;
use teamtalk::types::Subscriptions;
use teamtalk::types::TextMessage;
use teamtalk::types::TextMsgType;
use teamtalk::types::UserGender;
use teamtalk::types::UserId;
use teamtalk::types::UserPresence;
use teamtalk::types::UserState;
use teamtalk::types::UserStatus;

#[test]
fn user_status_roundtrip() {
    let status = UserStatus {
        presence: UserPresence::Away,
        gender: UserGender::Female,
        video: true,
        desktop: true,
        streaming: false,
        media_paused: true,
    };
    let bits = status.to_bits();
    let parsed = UserStatus::from_bits(bits);
    assert_eq!(parsed.presence, status.presence);
    assert_eq!(parsed.gender, status.gender);
    assert_eq!(parsed.video, status.video);
    assert_eq!(parsed.desktop, status.desktop);
    assert_eq!(parsed.streaming, status.streaming);
    assert_eq!(parsed.media_paused, status.media_paused);
}

#[test]
fn user_status_exact_bits() {
    let status = UserStatus {
        presence: UserPresence::Away,
        gender: UserGender::Female,
        video: true,
        desktop: false,
        streaming: false,
        media_paused: false,
    };
    assert_eq!(status.to_bits(), 0x1 | 0x100 | 0x200);
    let blank = UserStatus::from_bits(0);
    assert_eq!(blank.presence, UserPresence::Available);
    assert_eq!(blank.gender, UserGender::Male);
    assert!(!blank.video);
}

#[test]
fn user_state_flags() {
    let state =
        UserState::from_raw(UserState::VOICE | UserState::MUTE_VOICE | UserState::VIDEOCAPTURE);
    assert!(state.is_talking());
    assert!(state.is_muted());
    assert!(state.has_video());
}

#[test]
fn subscriptions_add_remove() {
    let mut subs = Subscriptions::new();
    subs.add(Subscriptions::USER_MSG);
    assert!(subs.has(Subscriptions::USER_MSG));
    subs.remove(Subscriptions::USER_MSG);
    assert!(!subs.has(Subscriptions::USER_MSG));
}

#[test]
fn subscriptions_all_and_raw() {
    let all = Subscriptions::all();
    assert!(all.has(Subscriptions::VOICE));
    assert_eq!(Subscriptions::from_raw(0x12).raw(), 0x12);
}

#[test]
fn channel_builder_sets_fields() {
    let channel = Channel::builder("room")
        .topic("topic")
        .max_users(42)
        .channel_type(ChannelType::from_raw(ChannelType::HIDDEN))
        .build();
    assert_eq!(channel.name, "room");
    assert_eq!(channel.topic, "topic");
    assert_eq!(channel.max_users, 42);
    assert_eq!(channel.channel_type.raw(), ChannelType::HIDDEN);
}

#[test]
fn message_target_from_ids() {
    let user = MessageTarget::from(UserId(1));
    match user {
        MessageTarget::User(id) => assert_eq!(id.0, 1),
        _ => panic!("expected user target"),
    }
    let channel = MessageTarget::from(ChannelId(2));
    match channel {
        MessageTarget::Channel(id) => assert_eq!(id.0, 2),
        _ => panic!("expected channel target"),
    }
}

#[test]
fn client_flags_membership() {
    let flags = ClientFlags::from_raw(ClientFlags::CONNECTED | ClientFlags::AUTHORIZED);
    assert!(flags.has(ClientFlags::CONNECTED));
    assert!(flags.has(ClientFlags::AUTHORIZED));
    assert!(!flags.has(ClientFlags::CONNECTING));
}

#[test]
fn outgoing_text_targets() {
    let to_user = TextMessage::outgoing(&MessageTarget::User(UserId(5)), UserId(1), "hi");
    assert_eq!(to_user.msg_type, TextMsgType::User);
    assert_eq!(to_user.to_id.0, 5);
    assert_eq!(to_user.channel_id.0, 0);
    assert_eq!(to_user.from_id.0, 1);
    assert_eq!(to_user.text, "hi");

    let to_channel = TextMessage::outgoing(&MessageTarget::Channel(ChannelId(8)), UserId(1), "all");
    assert_eq!(to_channel.msg_type, TextMsgType::Channel);
    assert_eq!(to_channel.channel_id.0, 8);
    assert_eq!(to_channel.to_id.0, 0);

    let broadcast = TextMessage::outgoing(&MessageTarget::Broadcast, UserId(1), "news");
    assert_eq!(broadcast.msg_type, TextMsgType::Broadcast);
    assert_eq!(broadcast.to_id.0, 0);
    assert_eq!(broadcast.channel_id.0, 0);
}
