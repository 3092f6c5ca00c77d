//! Self-counting strategies: each keeps its own attempt index and hands
//! out the delay for it, moving the index on by one with every call.

mod exponential;

pub use exponential::{Exponential, Jitter};

use crate::backoff::{linear_nanos, scaled_nanos};
use crate::time::{cap_nanos, capped, capped_nanos, from_nanos, nanos_of};
use std::time::Duration;
use vstd::prelude::*;

verus! {

/// A strategy that counts its own attempts.
pub trait Strategy {
    /// The invariant of the strategy's state.
    spec fn wf(&self) -> bool;

    /// The index of the attempt whose delay comes next.
    spec fn attempt_spec(&self) -> u32;

    /// Whether a call of `delay` from state `self` may return `out`
    /// nanoseconds and leave the state `next`.
    spec fn allows(&self, next: &Self, out: nat) -> bool;

    /// The index of the attempt whose delay comes next.
    fn attempt(&self) -> (attempt: u32)
        ensures
            attempt == self.attempt_spec(),
    ;

    /// The delay for the current attempt index, which then moves on by
    /// one.
    fn delay(&mut self) -> (d: Duration)
        requires
            old(self).wf(),
            old(self).attempt_spec() < u32::MAX,
        ensures
            final(self).wf(),
            final(self).attempt_spec() == old(self).attempt_spec() + 1,
            old(self).allows(final(self), nanos_of(d)),
    ;
}

/// The same delay at every attempt.
pub struct Fixed {
    attempt: u32,
    dur: Duration,
}

impl Fixed {
    /// The delay handed out at every attempt.
    pub closed spec fn dur_spec(&self) -> Duration {
        self.dur
    }

    /// A fixed strategy of `dur`, at attempt 0.
    pub fn new_with_values(dur: Duration) -> (s: Self)
        ensures
            s.attempt_spec() == 0,
            s.dur_spec() == dur,
    {
        Self { attempt: 0, dur }
    }
}

impl Strategy for Fixed {
    open spec fn wf(&self) -> bool {
        true
    }

    closed spec fn attempt_spec(&self) -> u32 {
        self.attempt
    }

    open spec fn allows(&self, next: &Self, out: nat) -> bool {
        &&& next.dur_spec() == self.dur_spec()
        &&& out == nanos_of(self.dur_spec())
    }

    fn attempt(&self) -> (attempt: u32) {
        self.attempt
    }

    fn delay(&mut self) -> (d: Duration)
        ensures
            d == old(self).dur_spec(),
    {
        self.attempt = self.attempt + 1;
        self.dur
    }
}

/// A delay that grows by the base with every attempt, held to an
/// optional cap.
pub struct Linear {
    attempt: u32,
    delay: Duration,
    max_delay: Option<Duration>,
}

impl Linear {
    /// The step by which the delay grows.
    pub closed spec fn base_spec(&self) -> Duration {
        self.delay
    }

    /// The cap on every delay, where one is configured.
    pub closed spec fn cap(&self) -> Option<Duration> {
        self.max_delay
    }

    /// A linear strategy with step `base` and cap `max_delay`, at
    /// attempt 0.
    pub fn new_with_values(base: Duration, max_delay: Option<Duration>) -> (s: Self)
        ensures
            s.attempt_spec() == 0,
            s.base_spec() == base,
            s.cap() == max_delay,
    {
        Self { attempt: 0, delay: base, max_delay }
    }
}

impl Strategy for Linear {
    open spec fn wf(&self) -> bool {
        true
    }

    closed spec fn attempt_spec(&self) -> u32 {
        self.attempt
    }

    open spec fn allows(&self, next: &Self, out: nat) -> bool {
        &&& next.base_spec() == self.base_spec()
        &&& next.cap() == self.cap()
        &&& out == capped_nanos(
            linear_nanos(nanos_of(self.base_spec()), self.attempt_spec() as nat),
            cap_nanos(self.cap()),
        )
    }

    fn attempt(&self) -> (attempt: u32) {
        self.attempt
    }

    fn delay(&mut self) -> (d: Duration) {
        let nominal = from_nanos(scaled_nanos(self.delay.as_nanos(), self.attempt));
        let dur = capped(nominal, self.max_delay);
        self.attempt = self.attempt + 1;
        dur
    }
}

} // verus!
