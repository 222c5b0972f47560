use teamtalk::Event;
use teamtalk::events::ConnectionState;
use teamtalk::types::ChannelId;

#[test]
fn connect_transitions() {
    assert_eq!(ConnectionState::Idle.apply_connect(), ConnectionState::Connecting);
    assert_eq!(ConnectionState::Disconnected.apply_connect(), ConnectionState::Connecting);
    // Connecting from any other state is ignored.
    assert_eq!(ConnectionState::Connected.apply_connect(), ConnectionState::Connected);

    assert_eq!(
        ConnectionState::Connecting.apply_event(&Event::ConnectSuccess, false, ChannelId(0)),
        ConnectionState::Connected
    );
    // A stray success outside Connecting is ignored.
    assert_eq!(
        ConnectionState::Idle.apply_event(&Event::ConnectSuccess, false, ChannelId(0)),
        ConnectionState::Idle
    );
}

#[test]
fn failures_disconnect_from_any_state() {
    for state in [
        ConnectionState::Idle,
        ConnectionState::Connecting,
        ConnectionState::Connected,
        ConnectionState::LoggedIn,
        ConnectionState::Joined(ChannelId(4)),
    ] {
        for event in [Event::ConnectFailed, Event::ConnectionLost, Event::ConnectCryptError] {
            assert_eq!(
                state.apply_event(&event, false, ChannelId(0)),
                ConnectionState::Disconnected
            );
        }
    }
}

#[test]
fn login_and_logout_transitions() {
    assert_eq!(ConnectionState::Connected.apply_login(), ConnectionState::LoggingIn);
    assert_eq!(ConnectionState::Idle.apply_login(), ConnectionState::Idle);
    assert_eq!(
        ConnectionState::LoggingIn.apply_event(&Event::MySelfLoggedIn, false, ChannelId(0)),
        ConnectionState::LoggedIn
    );
    assert_eq!(
        ConnectionState::LoggedIn.apply_event(&Event::MySelfLoggedOut, false, ChannelId(0)),
        ConnectionState::Connected
    );
    assert_eq!(
        ConnectionState::Joined(ChannelId(2)).apply_event(
            &Event::MySelfLoggedOut,
            false,
            ChannelId(0)
        ),
        ConnectionState::Connected
    );
}

#[test]
fn join_and_leave_transitions() {
    assert_eq!(
        ConnectionState::LoggedIn.apply_join(ChannelId(5)),
        ConnectionState::Joining(ChannelId(5))
    );
    assert_eq!(
        ConnectionState::Joining(ChannelId(5)).apply_event(&Event::UserJoined, true, ChannelId(5)),
        ConnectionState::Joined(ChannelId(5))
    );
    // A foreign user joining never moves the session.
    assert_eq!(
        ConnectionState::Joining(ChannelId(5)).apply_event(&Event::UserJoined, false, ChannelId(5)),
        ConnectionState::Joining(ChannelId(5))
    );
    assert_eq!(
        ConnectionState::Joined(ChannelId(5)).apply_event(&Event::UserLeft, true, ChannelId(5)),
        ConnectionState::LoggedIn
    );
    assert_eq!(
        ConnectionState::Joined(ChannelId(5)).apply_event(&Event::UserLeft, false, ChannelId(5)),
        ConnectionState::Joined(ChannelId(5))
    );
}

#[test]
fn unrelated_events_are_ignored() {
    assert_eq!(
        ConnectionState::Connected.apply_event(&Event::TextMessage, false, ChannelId(0)),
        ConnectionState::Connected
    );
    assert_eq!(
        ConnectionState::Idle.apply_event(&Event::Unknown(999), false, ChannelId(0)),
        ConnectionState::Idle
    );
}

#[test]
fn reconnect_trigger_classification() {
    assert!(Event::ConnectionLost.is_reconnect_needed());
    assert!(Event::ConnectFailed.is_reconnect_needed());
    assert!(Event::ConnectCryptError.is_reconnect_needed());
    assert!(!Event::MySelfKicked.is_reconnect_needed());
    let extra = vec![Event::MySelfKicked];
    assert!(Event::MySelfKicked.is_reconnect_needed_with(&extra));
    assert!(Event::ConnectionLost.is_reconnect_needed_with(&extra));
    assert!(!Event::CmdError.is_reconnect_needed_with(&extra));
}

#[test]
fn event_kind_ignores_payload() {
    let a = Event::Reconnecting { attempt: 1, delay_ms: 10 };
    let b = Event::Reconnecting { attempt: 7, delay_ms: 999 };
    assert!(a.same_kind(&b));
    assert!(!a.same_kind(&Event::ConnectionLost));
    assert!(Event::Unknown(1).same_kind(&Event::Unknown(2)));
}
