//! What becomes of a reading of the clock.

use konstruct::clock::{
    millis_shown, now_ms, now_ms_u64, now_unix, or_epoch, seconds_shown, to_signed_ms, unix_seconds,
};

#[test]
fn seconds_are_shown_as_signed() {
    assert_eq!(seconds_shown(Some(1_700_000_000)), Some(1_700_000_000));
    assert_eq!(seconds_shown(Some(u64::MAX)), Some(-1));
    assert_eq!(seconds_shown(None), None);
    assert_eq!(or_epoch(Some(7)), 7);
    assert_eq!(or_epoch(None), 0);
}

#[test]
fn milliseconds_go_as_far_as_they_fit() {
    assert_eq!(millis_shown(Some(1_700_000_000_123)), 1_700_000_000_123);
    assert_eq!(millis_shown(Some(u128::MAX)), u64::MAX);
    assert_eq!(millis_shown(None), 0);
    assert_eq!(to_signed_ms(5), 5);
    assert_eq!(to_signed_ms(u64::MAX), i64::MAX);
}

#[test]
fn the_clock_stands_after_this_was_written() {
    let then: i64 = 1_700_000_000;
    assert!(unix_seconds().unwrap() > then);
    assert!(now_unix() > then);
    assert!(now_ms_u64() / 1000 > then as u64);
    assert!(now_ms() / 1000 > then);
}
