//! A mathematical model of `std::time::Duration` as a count of nanoseconds,
//! and the saturating arithmetic the retry policies are built from.

use std::time::Duration;
use vstd::prelude::*;

verus! {

/// The total number of nanoseconds that a duration holds.
pub uninterp spec fn nanos_of(d: Duration) -> nat;

/// Nanoseconds in one second.
pub const NANOS_PER_SEC: u128 = 1_000_000_000;

/// The largest number of nanoseconds a `Duration` can hold:
/// `u64::MAX` whole seconds and 999,999,999 nanoseconds.
pub const MAX_NANOS: u128 = 18_446_744_073_709_551_615_999_999_999;

/// `x` clamped to the largest representable duration.
pub open spec fn saturate(x: nat) -> nat {
    if x > MAX_NANOS {
        MAX_NANOS as nat
    } else {
        x
    }
}

/// `Duration::as_nanos` returns the total number of nanoseconds of the
/// duration; that total is what `nanos_of` names. A duration holds a `u64`
/// of whole seconds and less than a second of nanoseconds, so the total
/// never exceeds `MAX_NANOS`.
pub assume_specification[ Duration::as_nanos ](d: &Duration) -> (n: u128)
    ensures
        n == nanos_of(*d),
        n <= MAX_NANOS,
;

/// `Duration::new` builds the duration of `secs` whole seconds plus `nanos`
/// nanoseconds. With `nanos` below one second no carry happens, so the
/// call cannot overflow.
pub assume_specification[ Duration::new ](secs: u64, nanos: u32) -> (d: Duration)
    requires
        nanos < NANOS_PER_SEC,
    ensures
        nanos_of(d) == secs * NANOS_PER_SEC + nanos,
;

/// The duration of `n` nanoseconds, clamped to the largest representable one.
pub fn from_nanos(n: u128) -> (d: Duration)
    ensures
        nanos_of(d) == saturate(n as nat),
{
    let m: u128 = if n > MAX_NANOS { MAX_NANOS } else { n };
    let secs: u128 = m / NANOS_PER_SEC;
    let rest: u128 = m % NANOS_PER_SEC;
    Duration::new(secs as u64, rest as u32)
}

/// The empty duration.
pub fn zero() -> (d: Duration)
    ensures
        nanos_of(d) == 0,
{
    Duration::new(0, 0)
}

/// Nanoseconds of an optional cap.
pub open spec fn cap_nanos(max: Option<Duration>) -> Option<nat> {
    match max {
        Some(m) => Some(nanos_of(m)),
        None => None,
    }
}

/// `delay` held to the cap, where one is configured.
pub open spec fn capped_nanos(delay: nat, max: Option<nat>) -> nat {
    match max {
        Some(m) => if m < delay { m } else { delay },
        None => delay,
    }
}

/// Whether `d` respects the cap, where one is configured.
pub open spec fn within_cap(d: Duration, max: Option<Duration>) -> bool {
    match max {
        Some(m) => nanos_of(d) <= nanos_of(m),
        None => true,
    }
}

/// The smaller of `delay` and the cap; `delay` itself without a cap.
pub fn capped(delay: Duration, max: Option<Duration>) -> (d: Duration)
    ensures
        nanos_of(d) == capped_nanos(nanos_of(delay), cap_nanos(max)),
        d == delay || max == Some(d),
        within_cap(d, max),
{
    match max {
        Some(m) => if m.as_nanos() < delay.as_nanos() { m } else { delay },
        None => delay,
    }
}

} // verus!
