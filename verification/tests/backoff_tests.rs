use teamtalk::backoff::ExponentialBackoff;
use teamtalk::events::Error;

#[test]
fn backoff_caps_delay() {
    let mut backoff = ExponentialBackoff::new(10, 20, 2).unwrap();
    let d1 = backoff.next_delay();
    let d2 = backoff.next_delay();
    assert!(d1 <= 20);
    assert!(d2 <= 20);
}

#[test]
fn backoff_reset() {
    let mut backoff = ExponentialBackoff::new(10, 100, 2).unwrap();
    let _ = backoff.next_delay();
    assert!(backoff.attempts() >= 1);
    backoff.reset();
    assert_eq!(backoff.attempts(), 0);
    assert_eq!(backoff.current_delay(), 0);
}

#[test]
fn backoff_cap_holds_once_exceeded() {
    // With a first delay of 10 and doubling growth, the uncapped term
    // passes the cap of 25 by the third attempt; every later sample must
    // still be within the cap.
    let mut backoff = ExponentialBackoff::new(10, 25, 2).unwrap();
    for _ in 0..6 {
        let d = backoff.next_delay();
        assert!(d <= 25);
    }
    assert_eq!(backoff.attempts(), 6);
}

#[test]
fn backoff_attempt_counter_advances() {
    let mut backoff = ExponentialBackoff::new(0, 0, 1).unwrap();
    assert_eq!(backoff.attempts(), 0);
    let d = backoff.next_delay();
    assert_eq!(d, 0);
    assert_eq!(backoff.attempts(), 1);
}

#[test]
fn backoff_rejects_inverted_delays() {
    match ExponentialBackoff::new(50, 10, 2) {
        Err(Error::InvalidParam) => {}
        _ => panic!("a cap below the first delay must be refused"),
    }
    match ExponentialBackoff::new(10, 50, 0) {
        Err(Error::InvalidParam) => {}
        _ => panic!("a zero growth factor must be refused"),
    }
}
