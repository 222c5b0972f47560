use teamtalk::Event;
use teamtalk::events::ConnectionState;
use teamtalk::registry::ClientRegistry;
use teamtalk::types::ClientId;

#[test]
fn register_get_unregister() {
    let mut registry = ClientRegistry::new();
    registry.register(ClientId(1), Some("alpha".to_string()), ConnectionState::Idle);
    registry.register(ClientId(2), None, ConnectionState::Connected);

    let info = registry.get(ClientId(1)).unwrap();
    assert_eq!(info.id.0, 1);
    assert_eq!(info.label.as_deref(), Some("alpha"));
    assert_eq!(info.state, ConnectionState::Idle);
    assert!(info.last_event.is_none());

    assert_eq!(registry.list().len(), 2);

    registry.unregister(ClientId(1));
    assert!(registry.get(ClientId(1)).is_none());
    assert_eq!(registry.list().len(), 1);

    registry.unregister(ClientId(9));
    assert_eq!(registry.list().len(), 1);
}

#[test]
fn reregistering_replaces_not_duplicates() {
    let mut registry = ClientRegistry::new();
    registry.register(ClientId(1), None, ConnectionState::Idle);
    registry.register(ClientId(1), Some("renamed".to_string()), ConnectionState::Connected);
    assert_eq!(registry.list().len(), 1);
    let info = registry.get(ClientId(1)).unwrap();
    assert_eq!(info.label.as_deref(), Some("renamed"));
    assert_eq!(info.state, ConnectionState::Connected);
}

#[test]
fn update_event_stamps_the_snapshot() {
    let mut registry = ClientRegistry::new();
    registry.register(ClientId(3), None, ConnectionState::Connecting);
    registry.update_event(
        ClientId(3),
        None,
        ConnectionState::Connected,
        Event::ConnectSuccess,
        777,
    );
    let info = registry.get(ClientId(3)).unwrap();
    assert_eq!(info.state, ConnectionState::Connected);
    assert_eq!(info.last_event, Some(Event::ConnectSuccess));
    assert_eq!(info.last_event_at_ms, Some(777));
}

#[test]
fn update_snapshot_keeps_the_last_event() {
    let mut registry = ClientRegistry::new();
    registry.update_event(
        ClientId(4),
        None,
        ConnectionState::Connected,
        Event::MySelfLoggedIn,
        10,
    );
    registry.update_snapshot(ClientId(4), Some("tag".to_string()), ConnectionState::LoggedIn);
    let info = registry.get(ClientId(4)).unwrap();
    assert_eq!(info.state, ConnectionState::LoggedIn);
    assert_eq!(info.label.as_deref(), Some("tag"));
    assert_eq!(info.last_event, Some(Event::MySelfLoggedIn));
    assert_eq!(info.last_event_at_ms, Some(10));
}

#[test]
fn unknown_session_is_registered_on_the_fly() {
    let mut registry = ClientRegistry::new();
    registry.update_snapshot(ClientId(5), None, ConnectionState::Disconnected);
    let info = registry.get(ClientId(5)).unwrap();
    assert_eq!(info.state, ConnectionState::Disconnected);
    assert!(info.last_event.is_none());
}
