use teamtalk::Event;
use teamtalk::manager::ClientManager;
use teamtalk::mock::MockClient;
use teamtalk::types::ClientId;

fn source_with(events: &[Event]) -> MockClient {
    let mut mock = MockClient::new();
    for ev in events {
        mock.push_event(*ev);
    }
    mock
}

#[test]
fn one_pass_forwards_one_record_per_session() {
    // Three sessions, each with exactly one queued event: one pass
    // forwards exactly three records, one per session, in registration
    // order; a session removed before the pass is never visited.
    let mut manager: ClientManager<MockClient> = ClientManager::new();
    manager.add_client(ClientId(1), None, source_with(&[Event::ConnectSuccess]));
    manager.add_client(ClientId(2), None, source_with(&[Event::MySelfLoggedIn]));
    manager.add_client(ClientId(3), None, source_with(&[Event::TextMessage]));
    manager.add_client(ClientId(4), None, source_with(&[Event::CmdError]));
    manager.remove_client(ClientId(4));

    let processed = manager.run_once(1_000);
    assert_eq!(processed, 3);
    let records = manager.events();
    assert_eq!(records.len(), 3);
    assert_eq!(records[0].client_id.0, 1);
    assert_eq!(records[0].event, Event::ConnectSuccess);
    assert_eq!(records[1].client_id.0, 2);
    assert_eq!(records[1].event, Event::MySelfLoggedIn);
    assert_eq!(records[2].client_id.0, 3);
    assert_eq!(records[2].event, Event::TextMessage);
    assert!(records.iter().all(|r| r.client_id.0 != 4));
    assert!(records.iter().all(|r| r.at_ms == 1_000));
}

#[test]
fn health_tracks_events_and_polls() {
    let mut manager: ClientManager<MockClient> = ClientManager::new();
    manager.add_client(ClientId(1), Some("a".to_string()), source_with(&[Event::CmdSuccess]));
    manager.add_client(ClientId(2), None, source_with(&[]));

    let processed = manager.run_once(500);
    assert_eq!(processed, 1);

    let first = manager.health_snapshot(ClientId(1)).unwrap();
    assert_eq!(first.last_event, Some(Event::CmdSuccess));
    assert_eq!(first.last_event_at_ms, Some(500));
    assert_eq!(first.last_poll_at_ms, Some(500));

    let second = manager.health_snapshot(ClientId(2)).unwrap();
    assert_eq!(second.last_event, None);
    assert_eq!(second.last_poll_at_ms, Some(500));

    assert!(manager.health_snapshot(ClientId(9)).is_none());
}

#[test]
fn empty_pass_reports_nothing_processed() {
    let mut manager: ClientManager<MockClient> = ClientManager::new();
    manager.add_client(ClientId(1), None, source_with(&[]));
    let processed = manager.run_once(0);
    assert_eq!(processed, 0);
    assert!(manager.events().is_empty());
    assert_eq!(manager.tick_sleep_ms(), 1);
}

#[test]
fn drain_empties_the_queue() {
    let mut manager: ClientManager<MockClient> = ClientManager::new();
    manager.add_client(ClientId(1), None, source_with(&[Event::CmdSuccess]));
    manager.run_once(7);
    let drained = manager.drain_events();
    assert_eq!(drained.len(), 1);
    assert_eq!(drained[0].event, Event::CmdSuccess);
    assert!(manager.events().is_empty());
}

#[test]
fn removed_session_is_forgotten() {
    let mut manager: ClientManager<MockClient> = ClientManager::new();
    manager.add_client(ClientId(1), None, source_with(&[]));
    manager.add_client(ClientId(2), None, source_with(&[]));
    manager.remove_client(ClientId(1));
    assert!(manager.health_snapshot(ClientId(1)).is_none());
    assert!(manager.health_snapshot(ClientId(2)).is_some());
    manager.remove_client(ClientId(7));
    assert!(manager.health_snapshot(ClientId(2)).is_some());
}

#[test]
fn fair_pass_pops_one_event_per_session() {
    // A session with two queued events contributes exactly one per pass.
    let mut manager: ClientManager<MockClient> = ClientManager::new();
    manager.add_client(
        ClientId(1),
        None,
        source_with(&[Event::CmdProcessing, Event::CmdSuccess]),
    );
    assert_eq!(manager.run_once(1), 1);
    assert_eq!(manager.run_once(2), 1);
    assert_eq!(manager.run_once(3), 0);
    let records = manager.events();
    assert_eq!(records[0].event, Event::CmdProcessing);
    assert_eq!(records[1].event, Event::CmdSuccess);
}
