use mulligan::strategy::{Exponential, Fixed, Jitter, Linear, Strategy};
use std::time::Duration;

#[test]
fn fixed_strategy_counts_attempts_and_keeps_its_delay() {
    let mut s = Fixed::new_with_values(Duration::from_millis(30));
    assert_eq!(s.attempt(), 0);
    assert_eq!(s.delay(), Duration::from_millis(30));
    assert_eq!(s.attempt(), 1);
    assert_eq!(s.delay(), Duration::from_millis(30));
    assert_eq!(s.attempt(), 2);
}

#[test]
fn linear_strategy_starts_at_zero_and_grows_by_the_base() {
    let mut s = Linear::new_with_values(Duration::from_secs(2), None);
    assert_eq!(s.attempt(), 0);
    assert_eq!(s.delay(), Duration::ZERO);
    assert_eq!(s.delay(), Duration::from_secs(2));
    assert_eq!(s.delay(), Duration::from_secs(4));
    assert_eq!(s.delay(), Duration::from_secs(6));
    assert_eq!(s.attempt(), 4);
}

#[test]
fn linear_strategy_respects_its_cap() {
    let mut s = Linear::new_with_values(Duration::from_secs(2), Some(Duration::from_secs(4)));
    let delays: Vec<Duration> = (0..5).map(|_| s.delay()).collect();
    assert_eq!(
        delays,
        vec![
            Duration::ZERO,
            Duration::from_secs(2),
            Duration::from_secs(4),
            Duration::from_secs(4),
            Duration::from_secs(4),
        ]
    );
}

#[test]
fn linear_strategy_saturates() {
    let mut s = Linear::new_with_values(Duration::MAX, None);
    assert_eq!(s.delay(), Duration::ZERO);
    assert_eq!(s.delay(), Duration::MAX);
    assert_eq!(s.delay(), Duration::MAX);
}

#[test]
fn exponential_strategy_defaults_to_one_second() {
    let mut s = Exponential::new();
    assert_eq!(s.attempt(), 0);
    assert_eq!(s.delay(), Duration::from_secs(1));
    assert_eq!(s.delay(), Duration::from_secs(2));
    assert_eq!(s.delay(), Duration::from_secs(4));
    assert_eq!(s.attempt(), 3);
    let mut d = Exponential::default();
    assert_eq!(d.attempt(), 0);
    assert_eq!(d.delay(), Duration::from_secs(1));
}

#[test]
fn exponential_strategy_doubles_from_its_base_up_to_the_cap() {
    let mut s = Exponential::new().base(Duration::from_millis(100)).max_delay(Duration::from_millis(500));
    let delays: Vec<Duration> = (0..5).map(|_| s.delay()).collect();
    assert_eq!(
        delays,
        vec![
            Duration::from_millis(100),
            Duration::from_millis(200),
            Duration::from_millis(400),
            Duration::from_millis(500),
            Duration::from_millis(500),
        ]
    );
}

#[test]
fn exponential_strategy_saturates_for_large_attempts() {
    let mut s = Exponential::new();
    let mut last = Duration::ZERO;
    for _ in 0..200 {
        last = s.delay();
    }
    assert_eq!(last, Duration::MAX);
    assert_eq!(s.attempt(), 200);
}

#[test]
fn exponential_strategy_full_jitter_stays_below_the_capped_backoff() {
    for _ in 0..200 {
        let mut s = Exponential::new()
            .base(Duration::from_millis(10))
            .max_delay(Duration::from_millis(35))
            .jitter(Jitter::Full);
        assert!(s.delay() <= Duration::from_millis(10));
        assert!(s.delay() <= Duration::from_millis(20));
        assert!(s.delay() <= Duration::from_millis(35));
        assert!(s.delay() <= Duration::from_millis(35));
    }
}

#[test]
fn exponential_strategy_equal_jitter_keeps_at_least_half() {
    for _ in 0..200 {
        let mut s = Exponential::new().base(Duration::from_millis(10)).jitter(Jitter::Equal);
        let first = s.delay();
        assert!(first >= Duration::from_millis(5) && first <= Duration::from_millis(10));
        let second = s.delay();
        assert!(second >= Duration::from_millis(10) && second <= Duration::from_millis(20));
    }
}

#[test]
fn exponential_strategy_equal_jitter_of_an_odd_delay() {
    for _ in 0..200 {
        let mut s = Exponential::new().base(Duration::new(0, 7)).jitter(Jitter::Equal);
        let d = s.delay();
        assert!(d >= Duration::new(0, 3) && d <= Duration::new(0, 6));
    }
}

#[test]
fn exponential_strategy_decorrelated_jitter_grows_from_the_base() {
    for _ in 0..200 {
        let base = Duration::from_millis(10);
        let mut s = Exponential::new().base(base).jitter(Jitter::Decorrelated);
        let mut previous = base;
        for _ in 0..10 {
            let d = s.delay();
            assert!(d >= base);
            assert!(d <= previous * 3);
            previous = d;
        }
        assert_eq!(s.attempt(), 10);
    }
}

#[test]
fn exponential_strategy_decorrelated_jitter_respects_the_cap() {
    for _ in 0..200 {
        let mut s = Exponential::new()
            .base(Duration::from_millis(10))
            .max_delay(Duration::from_millis(15))
            .jitter(Jitter::Decorrelated);
        for _ in 0..10 {
            assert!(s.delay() <= Duration::from_millis(15));
        }
    }
}

#[test]
fn jitter_kinds_compare_by_variant() {
    assert_eq!(Jitter::Full, Jitter::Full);
    assert_ne!(Jitter::Full, Jitter::Equal);
    assert_ne!(Jitter::Equal, Jitter::Decorrelated);
    let copy = Jitter::Decorrelated;
    assert_eq!(copy, Jitter::Decorrelated);
    assert_eq!(format!("{:?}", Jitter::Equal), "Equal");
}
