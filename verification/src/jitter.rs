//! Jitter transforms: the randomised perturbation of a nominal delay that
//! keeps independent callers from retrying in lockstep.

use crate::time::{cap_nanos, capped, capped_nanos, from_nanos, nanos_of, saturate, within_cap, zero};
use rand::Rng;
use std::time::Duration;
use vstd::prelude::*;

verus! {

/// Draws a duration from the thread-local generator with
/// `rand::Rng::gen_range` over the inclusive range `low..=high`. The call
/// panics on an empty range, which `requires` rules out; whatever is drawn
/// lies within the two bounds.
#[verifier::external_body]
pub(crate) fn random_between(low: Duration, high: Duration) -> (d: Duration)
    requires
        nanos_of(low) <= nanos_of(high),
    ensures
        nanos_of(low) <= nanos_of(d) <= nanos_of(high),
{
    rand::thread_rng().gen_range(low..=high)
}

/// A transform from the nominal delay to the delay actually slept.
pub trait Jitter {
    /// The invariant of the transform's state.
    spec fn wf(&self) -> bool;

    /// Whether a call from state `self` with a nominal delay of `delay`
    /// nanoseconds and a cap of `max` nanoseconds may return `out`
    /// nanoseconds and leave the state `next`.
    spec fn allows(&self, delay: nat, max: Option<nat>, next: &Self, out: nat) -> bool;

    /// The delay to sleep for the nominal `delay`, never above `max`.
    fn jitter(&mut self, delay: Duration, max: Option<Duration>) -> (d: Duration)
        requires
            old(self).wf(),
        ensures
            final(self).wf(),
            old(self).allows(nanos_of(delay), cap_nanos(max), final(self), nanos_of(d)),
            within_cap(d, max),
    ;
}

/// No perturbation: the nominal delay, held to the cap.
pub struct NoJitter;

impl Jitter for NoJitter {
    open spec fn wf(&self) -> bool {
        true
    }

    open spec fn allows(&self, delay: nat, max: Option<nat>, next: &Self, out: nat) -> bool {
        out == capped_nanos(delay, max)
    }

    fn jitter(&mut self, delay: Duration, max: Option<Duration>) -> (d: Duration) {
        capped(delay, max)
    }
}

/// Full jitter: anywhere between nothing and the capped delay.
pub struct Full;

impl Jitter for Full {
    open spec fn wf(&self) -> bool {
        true
    }

    open spec fn allows(&self, delay: nat, max: Option<nat>, next: &Self, out: nat) -> bool {
        out <= capped_nanos(delay, max)
    }

    fn jitter(&mut self, delay: Duration, max: Option<Duration>) -> (d: Duration) {
        let top = capped(delay, max);
        random_between(zero(), top)
    }
}

/// Equal jitter: between half of the capped delay and all of it.
pub struct Equal;

/// Half of `d`, rounded down to the nanosecond.
pub fn half(d: Duration) -> (h: Duration)
    ensures
        nanos_of(h) == nanos_of(d) / 2,
{
    from_nanos(d.as_nanos() / 2)
}

impl Jitter for Equal {
    open spec fn wf(&self) -> bool {
        true
    }

    open spec fn allows(&self, delay: nat, max: Option<nat>, next: &Self, out: nat) -> bool {
        let top = capped_nanos(delay, max);
        top / 2 <= out <= top
    }

    fn jitter(&mut self, delay: Duration, max: Option<Duration>) -> (d: Duration) {
        let top = capped(delay, max);
        random_between(half(top), top)
    }
}

/// Decorrelated jitter: each delay is drawn between the base and three
/// times the delay drawn before it. The value drawn, before any cap, is
/// what the next call starts from.
pub struct Decorrelated {
    base: Duration,
    previous: Duration,
}

impl Decorrelated {
    /// The lower bound of every draw.
    pub closed spec fn base_spec(&self) -> Duration {
        self.base
    }

    /// The value drawn by the latest call; the base before the first.
    pub closed spec fn previous_spec(&self) -> Duration {
        self.previous
    }

    /// Nanoseconds of the upper bound of the next draw.
    pub open spec fn ceiling_nanos(&self) -> nat {
        saturate(3 * nanos_of(self.previous_spec()))
    }

    /// Decorrelated jitter over `dur`, with the history seeded by `dur`.
    pub fn base(dur: Duration) -> (s: Self)
        ensures
            s.wf(),
            s.base_spec() == dur,
            s.previous_spec() == dur,
    {
        Self { base: dur, previous: dur }
    }

    /// The value drawn by the latest call, before any cap; the base before
    /// the first call.
    pub fn previous(&self) -> (d: Duration)
        ensures
            d == self.previous_spec(),
    {
        self.previous
    }

    /// The upper bound of the next draw: three times the previous one,
    /// clamped to the largest representable duration. It is never below
    /// the base, so the range of the draw is never empty.
    pub fn ceiling(&self) -> (d: Duration)
        requires
            self.wf(),
        ensures
            nanos_of(d) == self.ceiling_nanos(),
            nanos_of(self.base_spec()) <= nanos_of(d),
    {
        let p: u128 = self.previous.as_nanos();
        from_nanos(3 * p)
    }

    /// Records `drawn` as the outcome of a draw and returns it held to the
    /// cap. The history keeps the value as drawn, before the cap.
    pub fn settle(&mut self, drawn: Duration, max: Option<Duration>) -> (d: Duration)
        requires
            old(self).wf(),
            nanos_of(old(self).base_spec()) <= nanos_of(drawn) <= old(self).ceiling_nanos(),
        ensures
            final(self).wf(),
            final(self).base_spec() == old(self).base_spec(),
            final(self).previous_spec() == drawn,
            nanos_of(d) == capped_nanos(nanos_of(drawn), cap_nanos(max)),
            within_cap(d, max),
    {
        self.previous = drawn;
        capped(drawn, max)
    }
}

impl Jitter for Decorrelated {
    /// No draw fell below the base.
    open spec fn wf(&self) -> bool {
        nanos_of(self.base_spec()) <= nanos_of(self.previous_spec())
    }

    open spec fn allows(&self, delay: nat, max: Option<nat>, next: &Self, out: nat) -> bool {
        &&& next.base_spec() == self.base_spec()
        &&& nanos_of(self.base_spec()) <= nanos_of(next.previous_spec()) <= self.ceiling_nanos()
        &&& out == capped_nanos(nanos_of(next.previous_spec()), max)
    }

    fn jitter(&mut self, delay: Duration, max: Option<Duration>) -> (d: Duration) {
        let low = self.base;
        let high = self.ceiling();
        let drawn = random_between(low, high);
        self.settle(drawn, max)
    }
}

/// Whatever a jitter transform may return under a cap lies within the
/// cap.
pub proof fn lemma_allowed_delay_within_cap(
    delay: nat,
    cap: nat,
    out: nat,
    before: Decorrelated,
    after: Decorrelated,
)
    ensures
        NoJitter.allows(delay, Some(cap), &NoJitter, out) ==> out <= cap,
        Full.allows(delay, Some(cap), &Full, out) ==> out <= cap,
        Equal.allows(delay, Some(cap), &Equal, out) ==> out <= cap,
        before.allows(delay, Some(cap), &after, out) ==> out <= cap,
{
}

/// Two decorrelated calls in a row, from `first` through `second` to
/// `third`. Each draw lies between the base and three times the draw
/// before it, clamped to the largest representable duration; what a call
/// returns is its own draw held to its cap; and the second call starts
/// from the very value that the first one drew.
pub proof fn lemma_decorrelated_history(
    first: Decorrelated,
    second: Decorrelated,
    third: Decorrelated,
    delays: (nat, nat),
    caps: (Option<nat>, Option<nat>),
    outs: (nat, nat),
)
    requires
        first.wf(),
        first.allows(delays.0, caps.0, &second, outs.0),
        second.allows(delays.1, caps.1, &third, outs.1),
    ensures
        second.wf(),
        third.wf(),
        third.base_spec() == first.base_spec(),
        nanos_of(first.base_spec()) <= nanos_of(second.previous_spec()) <= saturate(
            3 * nanos_of(first.previous_spec()),
        ),
        nanos_of(first.base_spec()) <= nanos_of(third.previous_spec()) <= saturate(
            3 * nanos_of(second.previous_spec()),
        ),
        outs.0 == capped_nanos(nanos_of(second.previous_spec()), caps.0),
        outs.1 == capped_nanos(nanos_of(third.previous_spec()), caps.1),
        caps.0.is_none() ==> nanos_of(first.base_spec()) <= nanos_of(third.previous_spec())
            <= saturate(3 * outs.0),
{
}

} // verus!
