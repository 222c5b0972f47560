use teamtalk::Event;
use teamtalk::bridge::AsyncConfig;
use teamtalk::bridge::EventBridge;
use teamtalk::bridge::remaining_ms;
use teamtalk::bridge::OfferOutcome;
use teamtalk::mock::MockMessage;

#[test]
fn bounded_buffer_blocks_the_producer() {
    // A buffer of size three accepts exactly three events while the
    // consumer pauses drainage; the fourth offer stalls the producer
    // instead of dropping the event.
    let mut bridge = EventBridge::new(AsyncConfig::new().buffer(3));
    for _ in 0..3 {
        let outcome = bridge.offer(Event::CmdSuccess, MockMessage::empty());
        assert_eq!(outcome, OfferOutcome::Accepted);
    }
    assert_eq!(bridge.len(), 3);
    let outcome = bridge.offer(Event::CmdSuccess, MockMessage::empty());
    assert_eq!(outcome, OfferOutcome::Full);
    assert_eq!(bridge.len(), 3);

    // Draining one event frees room for exactly one more.
    assert!(bridge.next_event().is_some());
    assert_eq!(bridge.offer(Event::CmdError, MockMessage::empty()), OfferOutcome::Accepted);
    assert_eq!(bridge.offer(Event::CmdError, MockMessage::empty()), OfferOutcome::Full);
}

#[test]
fn stop_refuses_further_events() {
    let mut bridge = EventBridge::new(AsyncConfig::new().buffer(8));
    assert_eq!(bridge.offer(Event::ConnectSuccess, MockMessage::empty()), OfferOutcome::Accepted);
    bridge.stop();
    assert!(bridge.is_stopped());
    assert_eq!(bridge.offer(Event::CmdSuccess, MockMessage::empty()), OfferOutcome::Closed);
    // Stopping again is idempotent.
    bridge.stop();
    assert!(bridge.is_stopped());
    // The consumer may still drain what was buffered before the stop.
    let (event, _message) = bridge.next_event().unwrap();
    assert_eq!(event, Event::ConnectSuccess);
    assert!(bridge.next_event().is_none());
}

#[test]
fn zero_capacity_is_raised_to_one() {
    let mut bridge = EventBridge::new(AsyncConfig::new().buffer(0));
    assert_eq!(bridge.capacity(), 1);
    assert_eq!(bridge.offer(Event::CmdSuccess, MockMessage::empty()), OfferOutcome::Accepted);
    assert_eq!(bridge.offer(Event::CmdSuccess, MockMessage::empty()), OfferOutcome::Full);
}

#[test]
fn events_come_out_in_order() {
    let mut bridge = EventBridge::new(AsyncConfig::default());
    bridge.offer(Event::ConnectSuccess, MockMessage::empty());
    bridge.offer(Event::MySelfLoggedIn, MockMessage::empty());
    assert!(!bridge.is_empty());
    assert_eq!(bridge.next_event().unwrap().0, Event::ConnectSuccess);
    assert_eq!(bridge.next_event().unwrap().0, Event::MySelfLoggedIn);
    assert!(bridge.is_empty());
}

#[test]
fn remaining_time_never_exceeds_deadline() {
    assert_eq!(remaining_ms(1_000, 0), 1_000);
    assert_eq!(remaining_ms(1_000, 400), 600);
    assert_eq!(remaining_ms(1_000, 1_000), 0);
    assert_eq!(remaining_ms(1_000, 2_000), 0);
}
