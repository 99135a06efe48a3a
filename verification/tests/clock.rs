use std::time::{Duration, SystemTime, UNIX_EPOCH};
use swarm_kit::clock::{kad_timeout, now, short_timeout, timeout, timeout_message, timeout_span};
use swarm_kit::span::Span;

#[test]
fn now_is_the_system_time() {
    let before = SystemTime::now().duration_since(UNIX_EPOCH).unwrap().as_secs();
    let seconds = now();
    let after = SystemTime::now().duration_since(UNIX_EPOCH).unwrap().as_secs();
    assert!(before <= seconds && seconds <= after);
}

#[test]
fn timeouts_have_their_lengths() {
    assert_eq!(timeout_span(true).parts(), (150, 0));
    assert_eq!(timeout_span(false).parts(), (15, 0));
    assert_eq!(short_timeout().parts(), (0, 300_000_000));
    assert_eq!(kad_timeout().parts(), (0, 500_000_000));
}

#[test]
fn what_came_in_time_is_handed_on() {
    let waited: Result<u8, &str> = Ok(7);
    assert_eq!(timeout(short_timeout(), waited).unwrap(), 7);
}

#[test]
fn what_did_not_come_is_reported() {
    let waited: Result<u8, &str> = Err("too late");
    let timed_out = timeout(Span::new(1, 500_000_000), waited).unwrap_err();
    assert_eq!(timed_out.message, "timed out after 1.5s");
    assert_eq!(timed_out.cause, "too late");
}

#[test]
fn message_prints_the_length_as_a_duration() {
    assert_eq!(timeout_message(short_timeout()), "timed out after 300ms");
    assert_eq!(timeout_message(timeout_span(true)), "timed out after 150s");
    assert_eq!(
        timeout_message(Span::new(3, 4)),
        format!("timed out after {:?}", Duration::new(3, 4))
    );
}

#[test]
fn spans_are_seconds_and_nanoseconds() {
    assert_eq!(Span::new(2, 999_999_999).parts(), (2, 999_999_999));
    assert_eq!(Span::from_secs(u64::MAX).parts(), (u64::MAX, 0));
    assert_eq!(Span::from_millis(12_345).parts(), (12, 345_000_000));
    assert_eq!(Span::from_millis(u64::MAX).parts(), (18_446_744_073_709_551, 615_000_000));
    assert_eq!(Span::from_millis(2_000), Span::from_secs(2));
}
