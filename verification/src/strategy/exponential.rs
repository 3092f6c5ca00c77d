//! The self-counting exponential strategy, with an optional cap and an
//! optional jitter.

use crate::backoff::{doubled_nanos, exponential_nanos};
use crate::jitter::random_between;
use crate::strategy::Strategy;
use crate::time::{cap_nanos, capped, capped_nanos, from_nanos, nanos_of, saturate, zero};
use std::time::Duration;
use vstd::prelude::*;

verus! {

/// The ways a computed delay can be randomised.
#[derive(Debug, Clone, Copy, PartialEq, Eq, Structural)]
pub enum Jitter {
    /// A delay between nothing and the capped backoff.
    Full,
    /// Half of the capped backoff, plus a draw of up to as much again.
    Equal,
    /// A delay between the base and three times the delay drawn before,
    /// held to the cap.
    Decorrelated,
}

/// A delay that doubles with every attempt.
pub struct Exponential {
    attempt: u32,
    base: Duration,
    max_delay: Option<Duration>,
    jitter: Option<Jitter>,
    previous: Option<Duration>,
}

impl Exponential {
    /// The delay at attempt 0.
    pub closed spec fn base_spec(&self) -> Duration {
        self.base
    }

    /// The cap on every delay, where one is configured.
    pub closed spec fn cap(&self) -> Option<Duration> {
        self.max_delay
    }

    /// The jitter, where one is configured.
    pub closed spec fn jitter_spec(&self) -> Option<Jitter> {
        self.jitter
    }

    /// The latest decorrelated draw, before the cap, if there was one.
    pub closed spec fn previous_spec(&self) -> Option<Duration> {
        self.previous
    }

    /// Nanoseconds from which the next decorrelated draw starts: the
    /// latest draw, or the base before the first.
    pub open spec fn seed_nanos(&self) -> nat {
        match self.previous_spec() {
            Some(p) => nanos_of(p),
            None => nanos_of(self.base_spec()),
        }
    }

    /// Nanoseconds of the upper bound of the next decorrelated draw.
    pub open spec fn ceiling_nanos(&self) -> nat {
        saturate(3 * self.seed_nanos())
    }

    /// Nanoseconds of the backoff at the current attempt, held to the cap.
    pub open spec fn capped_backoff(&self) -> nat {
        capped_nanos(
            exponential_nanos(nanos_of(self.base_spec()), self.attempt_spec() as nat),
            cap_nanos(self.cap()),
        )
    }

    /// Whether `next` has the configuration of this strategy.
    pub open spec fn same_settings(&self, next: &Self) -> bool {
        &&& next.base_spec() == self.base_spec()
        &&& next.cap() == self.cap()
        &&& next.jitter_spec() == self.jitter_spec()
    }

    /// One second of base, no cap and no jitter, at attempt 0.
    pub fn new() -> (s: Self)
        ensures
            s.wf(),
            s.attempt_spec() == 0,
            nanos_of(s.base_spec()) == 1_000_000_000,
            s.cap().is_none(),
            s.jitter_spec().is_none(),
            s.previous_spec().is_none(),
    {
        Self {
            attempt: 0,
            base: Duration::new(1, 0),
            max_delay: None,
            jitter: None,
            previous: None,
        }
    }

    /// Sets the delay at attempt 0.
    pub fn base(self, dur: Duration) -> (s: Self)
        ensures
            s.base_spec() == dur,
            s.attempt_spec() == self.attempt_spec(),
            s.cap() == self.cap(),
            s.jitter_spec() == self.jitter_spec(),
            s.previous_spec() == self.previous_spec(),
    {
        let mut s = self;
        s.base = dur;
        s
    }

    /// Caps every delay at `dur`.
    pub fn max_delay(self, dur: Duration) -> (s: Self)
        ensures
            s.cap() == Some(dur),
            s.attempt_spec() == self.attempt_spec(),
            s.base_spec() == self.base_spec(),
            s.jitter_spec() == self.jitter_spec(),
            s.previous_spec() == self.previous_spec(),
    {
        let mut s = self;
        s.max_delay = Some(dur);
        s
    }

    /// Sets the jitter.
    pub fn jitter(self, kind: Jitter) -> (s: Self)
        ensures
            s.jitter_spec() == Some(kind),
            s.attempt_spec() == self.attempt_spec(),
            s.base_spec() == self.base_spec(),
            s.cap() == self.cap(),
            s.previous_spec() == self.previous_spec(),
    {
        let mut s = self;
        s.jitter = Some(kind);
        s
    }
}

impl Default for Exponential {
    fn default() -> (s: Self)
        ensures
            s.wf(),
            s.attempt_spec() == 0,
            nanos_of(s.base_spec()) == 1_000_000_000,
            s.cap().is_none(),
            s.jitter_spec().is_none(),
            s.previous_spec().is_none(),
    {
        Exponential::new()
    }
}

impl Strategy for Exponential {
    /// The range of the next decorrelated draw is not empty. This holds of
    /// every strategy whose base was set before its first draw.
    open spec fn wf(&self) -> bool {
        nanos_of(self.base_spec()) <= self.ceiling_nanos()
    }

    closed spec fn attempt_spec(&self) -> u32 {
        self.attempt
    }

    open spec fn allows(&self, next: &Self, out: nat) -> bool {
        &&& self.same_settings(next)
        &&& match self.jitter_spec() {
            None => next.previous_spec() == self.previous_spec() && out == self.capped_backoff(),
            Some(Jitter::Full) => next.previous_spec() == self.previous_spec() && out
                <= self.capped_backoff(),
            Some(Jitter::Equal) => {
                let half = self.capped_backoff() / 2;
                next.previous_spec() == self.previous_spec() && half <= out <= 2 * half
            },
            Some(Jitter::Decorrelated) => {
                &&& next.previous_spec() matches Some(drawn)
                &&& nanos_of(self.base_spec()) <= nanos_of(drawn) <= self.ceiling_nanos()
                &&& out == capped_nanos(nanos_of(drawn), cap_nanos(self.cap()))
            },
        }
    }

    fn attempt(&self) -> (attempt: u32) {
        self.attempt
    }

    fn delay(&mut self) -> (d: Duration) {
        let dur = from_nanos(doubled_nanos(self.base.as_nanos(), self.attempt));
        self.attempt = self.attempt + 1;
        match self.jitter {
            None => capped(dur, self.max_delay),
            Some(Jitter::Full) => {
                let top = capped(dur, self.max_delay);
                random_between(zero(), top)
            },
            Some(Jitter::Equal) => {
                let top = capped(dur, self.max_delay);
                let half: u128 = top.as_nanos() / 2;
                let extra = random_between(zero(), from_nanos(half));
                from_nanos(half + extra.as_nanos())
            },
            Some(Jitter::Decorrelated) => {
                let previous = match self.previous {
                    Some(p) => p,
                    None => self.base,
                };
                let high = from_nanos(3 * previous.as_nanos());
                let next = random_between(self.base, high);
                self.previous = Some(next);
                capped(next, self.max_delay)
            },
        }
    }
}

/// Whatever the strategy may hand out under a cap lies within the cap,
/// with any jitter and with none.
pub proof fn lemma_delay_within_cap(before: Exponential, after: Exponential, out: nat, cap: Duration)
    requires
        before.cap() == Some(cap),
        before.allows(&after, out),
    ensures
        out <= nanos_of(cap),
{
}

} // verus!
