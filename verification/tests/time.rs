use mulligan::time::{capped, from_nanos, zero, MAX_NANOS, NANOS_PER_SEC};
use std::time::Duration;

#[test]
fn max_nanos_is_the_largest_duration() {
    assert_eq!(Duration::MAX.as_nanos(), MAX_NANOS);
    assert_eq!(NANOS_PER_SEC, 1_000_000_000);
}

#[test]
fn from_nanos_splits_seconds_and_nanoseconds() {
    assert_eq!(from_nanos(0), Duration::ZERO);
    assert_eq!(from_nanos(1), Duration::new(0, 1));
    assert_eq!(from_nanos(999_999_999), Duration::new(0, 999_999_999));
    assert_eq!(from_nanos(1_000_000_000), Duration::new(1, 0));
    assert_eq!(from_nanos(5_730_023_852), Duration::new(5, 730_023_852));
}

#[test]
fn from_nanos_saturates_at_the_largest_duration() {
    assert_eq!(from_nanos(MAX_NANOS), Duration::MAX);
    assert_eq!(from_nanos(MAX_NANOS - 1), Duration::new(u64::MAX, 999_999_998));
    assert_eq!(from_nanos(MAX_NANOS + 1), Duration::MAX);
    assert_eq!(from_nanos(u128::MAX), Duration::MAX);
}

#[test]
fn zero_is_the_empty_duration() {
    assert_eq!(zero(), Duration::ZERO);
}

#[test]
fn capped_takes_the_smaller_of_delay_and_cap() {
    let two = Duration::from_secs(2);
    let five = Duration::from_secs(5);
    assert_eq!(capped(five, None), five);
    assert_eq!(capped(five, Some(two)), two);
    assert_eq!(capped(two, Some(five)), two);
    assert_eq!(capped(two, Some(two)), two);
    assert_eq!(capped(five, Some(Duration::ZERO)), Duration::ZERO);
}
