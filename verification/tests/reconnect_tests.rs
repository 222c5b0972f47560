use teamtalk::events::Error;
use teamtalk::reconnect::ReconnectConfig;
use teamtalk::reconnect::ReconnectHandler;

fn config(max_attempts: u32, min_ms: u64, max_ms: u64, stability_ms: u64) -> ReconnectConfig {
    ReconnectConfig {
        max_attempts,
        min_delay_ms: min_ms,
        max_delay_ms: max_ms,
        stability_threshold_ms: stability_ms,
    }
}

#[test]
fn gate_closed_until_delay_elapses() {
    // On a monotonically increasing mock clock, a fresh controller
    // permits the first attempt at once; after recording it, permission
    // stays false until the just-computed delay has elapsed, then true.
    let mut handler = ReconnectHandler::new(config(5, 100, 1000, 10_000)).unwrap();
    assert!(handler.can_attempt(0));
    handler.record_attempt(0);
    let delay = handler.current_delay();
    assert!(delay <= 1000);
    if delay > 0 {
        assert!(!handler.can_attempt(0));
        assert!(!handler.can_attempt(delay - 1));
    }
    assert!(handler.can_attempt(delay));
    assert!(handler.can_attempt(delay + 500));
}

#[test]
fn stability_reset_clears_attempts() {
    // Held for at least the stability threshold: the disconnect resets
    // the attempt counter to zero.
    let mut handler = ReconnectHandler::new(config(10, 100, 1000, 10_000)).unwrap();
    handler.record_attempt(0);
    handler.record_attempt(200);
    handler.record_attempt(400);
    assert_eq!(handler.attempts(), 3);
    handler.mark_connected(1_000);
    handler.mark_disconnected(12_000);
    assert_eq!(handler.attempts(), 0);
}

#[test]
fn short_uptime_preserves_attempts() {
    // Held for less than the stability threshold: the accumulated
    // attempt count survives the disconnect.
    let mut handler = ReconnectHandler::new(config(10, 100, 1000, 10_000)).unwrap();
    handler.record_attempt(0);
    handler.record_attempt(200);
    assert_eq!(handler.attempts(), 2);
    handler.mark_connected(1_000);
    handler.mark_disconnected(5_000);
    assert_eq!(handler.attempts(), 2);
}

#[test]
fn flapping_then_stable_connection() {
    // Reconnect enabled with a 200 ms first delay, a 60 s cap and a 10 s
    // stability threshold; after earlier flapping the counter reads 3,
    // the session then stays up 15 s, and the disconnect resets it.
    let mut handler = ReconnectHandler::new(config(10, 200, 60_000, 10_000)).unwrap();
    handler.record_attempt(0);
    handler.record_attempt(1_000);
    handler.record_attempt(2_000);
    assert_eq!(handler.attempts(), 3);
    handler.mark_connected(3_000);
    handler.mark_disconnected(18_000);
    assert_eq!(handler.attempts(), 0);
    assert!(handler.can_attempt(18_000));
}

#[test]
fn exhausted_budget_blocks_forever() {
    let mut handler = ReconnectHandler::new(config(2, 0, 100, 10_000)).unwrap();
    assert!(handler.can_attempt(0));
    handler.record_attempt(0);
    handler.record_attempt(1_000);
    assert_eq!(handler.attempts(), 2);
    assert!(!handler.can_attempt(1_000_000_000));
    handler.reset();
    assert!(handler.can_attempt(0));
}

#[test]
fn invalid_policy_is_refused() {
    match ReconnectHandler::new(config(5, 1_000, 100, 0)) {
        Err(Error::InvalidParam) => {}
        _ => panic!("a delay cap below the first delay must be refused"),
    }
}
