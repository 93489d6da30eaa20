use std::time::Duration;

use webpad::clock::{from_millis, from_nanos, from_secs, Clock, MAX_READING};

#[test]
fn spans_are_exact() {
    assert_eq!(from_millis(0), Duration::ZERO);
    assert_eq!(from_millis(1500), Duration::from_millis(1500));
    assert_eq!(from_millis(u64::MAX), Duration::from_millis(u64::MAX));
    assert_eq!(from_secs(7), Duration::from_secs(7));
    assert_eq!(from_nanos(1), Duration::from_nanos(1));
    assert_eq!(from_nanos(2_000_000_003), Duration::new(2, 3));
}

#[test]
fn longest_span_is_not_exceeded() {
    assert_eq!(from_nanos(MAX_READING), Duration::MAX);
    assert_eq!(from_nanos(MAX_READING + 1), Duration::MAX);
    assert_eq!(from_nanos(u128::MAX), Duration::MAX);
}

#[test]
fn readings_do_not_go_back() {
    let clock = Clock::start();
    let mut last = clock.now();
    for _ in 0..1000 {
        let next = clock.now();
        assert!(last <= next);
        last = next;
    }
}
