//! A retry policy engine: backoff strategies, jitter transforms, stop
//! conditions and the state machine that sequences one retry loop.

pub mod backoff;
pub mod hooks;
pub mod jitter;
pub mod retry;
pub mod stop;
pub mod strategy;
pub mod time;

pub use crate::backoff::{Backoff, Exponential, Fixed, Linear};
pub use crate::jitter::{Decorrelated, Equal, Full, Jitter, NoJitter};

use crate::hooks::{AfterAttempt, AfterHook, BeforeAttempt, BeforeHook};
use crate::stop::{should_stop, stop_spec};
use crate::time::{cap_nanos, nanos_of, within_cap, zero};
use std::marker::PhantomData;
use std::time::Duration;
use vstd::prelude::*;

verus! {

/// A retry policy: when to stop, how long to wait between attempts, and
/// whom to tell. Built with `until` or `until_ok` and the methods below.
#[verifier::reject_recursive_types(T)]
#[verifier::reject_recursive_types(E)]
pub struct Mulligan<T, E, Cond, Jit, Back> where
    Cond: Fn(&Result<T, E>) -> bool,
    Jit: Jitter,
    Back: Backoff,
 {
    stop_after: Option<u32>,
    until: Cond,
    backoff: Back,
    jitterable: Jit,
    max: Option<Duration>,
    before_attempt: Option<Box<dyn BeforeAttempt>>,
    after_attempt: Option<Box<dyn AfterAttempt<T, E>>>,
    _phantom: PhantomData<(T, E)>,
}

/// A policy that retries until the operation succeeds: no ceiling, no
/// delay, no jitter, no cap and no hooks.
pub fn until_ok<T, E>() -> (m: Mulligan<T, E, impl Fn(&Result<T, E>) -> bool, NoJitter, Fixed>)
    ensures
        m.wf(),
        m.ceiling() == None::<u32>,
        m.cap() == None::<Duration>,
        nanos_of(m.strategy().base_spec()) == 0,
        m.before_hook().is_none(),
        m.after_hook().is_none(),
        forall|result: &Result<T, E>, fired: bool|
            call_ensures(m.condition(), (result,), fired) ==> fired == result.is_ok(),
{
    let succeeded = |result: &Result<T, E>| -> (fired: bool)
        ensures
            fired == result.is_ok(),
        { result.is_ok() };
    until(succeeded)
}

/// A policy that retries until `f` holds of a result: no ceiling, no
/// delay, no jitter, no cap and no hooks.
pub fn until<T, E, Cond>(f: Cond) -> (m: Mulligan<T, E, Cond, NoJitter, Fixed>) where
    Cond: Fn(&Result<T, E>) -> bool,

    requires
        forall|result: &Result<T, E>| call_requires(f, (result,)),
    ensures
        m.wf(),
        m.condition() == f,
        m.ceiling() == None::<u32>,
        m.cap() == None::<Duration>,
        nanos_of(m.strategy().base_spec()) == 0,
        m.before_hook().is_none(),
        m.after_hook().is_none(),
{
    Mulligan {
        stop_after: None,
        until: f,
        backoff: Fixed::base(zero()),
        jitterable: NoJitter,
        max: None,
        before_attempt: None,
        after_attempt: None,
        _phantom: PhantomData,
    }
}

impl<T, E, Cond, Jit, Back> Mulligan<T, E, Cond, Jit, Back> where
    Cond: Fn(&Result<T, E>) -> bool,
    Jit: Jitter,
    Back: Backoff,
 {
    /// The attempt ceiling, where one is configured.
    pub closed spec fn ceiling(&self) -> Option<u32> {
        self.stop_after
    }

    /// The cap on every delay, where one is configured.
    pub closed spec fn cap(&self) -> Option<Duration> {
        self.max
    }

    /// The predicate that ends a run.
    pub closed spec fn condition(&self) -> Cond {
        self.until
    }

    /// The backoff strategy.
    pub closed spec fn strategy(&self) -> Back {
        self.backoff
    }

    /// The jitter transform, with its state.
    pub closed spec fn transform(&self) -> Jit {
        self.jitterable
    }

    /// The observer told before a retry is waited for.
    pub closed spec fn before_hook(&self) -> Option<Box<dyn BeforeAttempt>> {
        self.before_attempt
    }

    /// The observer told after a retry was waited for.
    pub closed spec fn after_hook(&self) -> Option<Box<dyn AfterAttempt<T, E>>> {
        self.after_attempt
    }

    /// The invariant of a policy: its predicate accepts every result, and
    /// the jitter state is well formed.
    pub open spec fn wf(&self) -> bool {
        &&& forall|result: &Result<T, E>| call_requires(self.condition(), (result,))
        &&& self.transform().wf()
    }

    /// Whether `other` differs from this policy at most in its backoff
    /// strategy and its jitter transform.
    pub open spec fn same_frame<J: Jitter, B: Backoff>(&self, other: &Mulligan<T, E, Cond, J, B>) -> bool {
        &&& other.ceiling() == self.ceiling()
        &&& other.cap() == self.cap()
        &&& other.condition() == self.condition()
        &&& other.before_hook() == self.before_hook()
        &&& other.after_hook() == self.after_hook()
    }

    /// Sets the ceiling: a run stops after attempt `attempts` at the
    /// latest, whatever the predicate says.
    pub fn stop_after(self, attempts: u32) -> (m: Self)
        ensures
            m.ceiling() == Some(attempts),
            m.cap() == self.cap(),
            m.condition() == self.condition(),
            m.strategy() == self.strategy(),
            m.transform() == self.transform(),
            m.before_hook() == self.before_hook(),
            m.after_hook() == self.after_hook(),
    {
        let mut m = self;
        m.stop_after = Some(attempts);
        m
    }

    /// Caps every delay at `dur`, however large the computed backoff.
    pub fn max_delay(self, dur: Duration) -> (m: Self)
        ensures
            m.cap() == Some(dur),
            m.ceiling() == self.ceiling(),
            m.condition() == self.condition(),
            m.strategy() == self.strategy(),
            m.transform() == self.transform(),
            m.before_hook() == self.before_hook(),
            m.after_hook() == self.after_hook(),
    {
        let mut m = self;
        m.max = Some(dur);
        m
    }

    /// Replaces the jitter transform.
    pub fn jitter<J>(self, jitter: J) -> (m: Mulligan<T, E, Cond, J, Back>) where J: Jitter
        ensures
            self.same_frame(&m),
            m.strategy() == self.strategy(),
            m.transform() == jitter,
    {
        Mulligan {
            stop_after: self.stop_after,
            until: self.until,
            backoff: self.backoff,
            jitterable: jitter,
            max: self.max,
            before_attempt: self.before_attempt,
            after_attempt: self.after_attempt,
            _phantom: PhantomData,
        }
    }

    /// Full jitter: every delay is drawn between nothing and the capped
    /// backoff.
    pub fn full_jitter(self) -> (m: Mulligan<T, E, Cond, Full, Back>)
        ensures
            self.same_frame(&m),
            m.strategy() == self.strategy(),
    {
        Mulligan {
            stop_after: self.stop_after,
            until: self.until,
            backoff: self.backoff,
            jitterable: Full,
            max: self.max,
            before_attempt: self.before_attempt,
            after_attempt: self.after_attempt,
            _phantom: PhantomData,
        }
    }

    /// Equal jitter: every delay is drawn between half of the capped
    /// backoff and all of it.
    pub fn equal_jitter(self) -> (m: Mulligan<T, E, Cond, Equal, Back>)
        ensures
            self.same_frame(&m),
            m.strategy() == self.strategy(),
    {
        Mulligan {
            stop_after: self.stop_after,
            until: self.until,
            backoff: self.backoff,
            jitterable: Equal,
            max: self.max,
            before_attempt: self.before_attempt,
            after_attempt: self.after_attempt,
            _phantom: PhantomData,
        }
    }

    /// Decorrelated jitter: every delay is drawn between `base` and three
    /// times the delay drawn before it, starting from `base`.
    pub fn decorrelated_jitter(self, base: Duration) -> (m: Mulligan<T, E, Cond, Decorrelated, Back>)
        ensures
            self.same_frame(&m),
            m.strategy() == self.strategy(),
            m.transform().wf(),
            m.transform().base_spec() == base,
            m.transform().previous_spec() == base,
    {
        Mulligan {
            stop_after: self.stop_after,
            until: self.until,
            backoff: self.backoff,
            jitterable: Decorrelated::base(base),
            max: self.max,
            before_attempt: self.before_attempt,
            after_attempt: self.after_attempt,
            _phantom: PhantomData,
        }
    }

    /// Replaces the backoff strategy.
    pub fn backoff<B>(self, backoff: B) -> (m: Mulligan<T, E, Cond, Jit, B>) where B: Backoff
        ensures
            self.same_frame(&m),
            m.strategy() == backoff,
            m.transform() == self.transform(),
    {
        Mulligan {
            stop_after: self.stop_after,
            until: self.until,
            backoff,
            jitterable: self.jitterable,
            max: self.max,
            before_attempt: self.before_attempt,
            after_attempt: self.after_attempt,
            _phantom: PhantomData,
        }
    }

    /// Fixed backoff: `dur` before every retry.
    pub fn fixed(self, dur: Duration) -> (m: Mulligan<T, E, Cond, Jit, Fixed>)
        ensures
            self.same_frame(&m),
            m.strategy().base_spec() == dur,
            m.transform() == self.transform(),
    {
        Mulligan {
            stop_after: self.stop_after,
            until: self.until,
            backoff: Fixed::base(dur),
            jitterable: self.jitterable,
            max: self.max,
            before_attempt: self.before_attempt,
            after_attempt: self.after_attempt,
            _phantom: PhantomData,
        }
    }

    /// Linear backoff: `dur * attempt` before the retry that follows
    /// attempt `attempt`.
    pub fn linear(self, dur: Duration) -> (m: Mulligan<T, E, Cond, Jit, Linear>)
        ensures
            self.same_frame(&m),
            m.strategy().base_spec() == dur,
            m.transform() == self.transform(),
    {
        Mulligan {
            stop_after: self.stop_after,
            until: self.until,
            backoff: Linear::base(dur),
            jitterable: self.jitterable,
            max: self.max,
            before_attempt: self.before_attempt,
            after_attempt: self.after_attempt,
            _phantom: PhantomData,
        }
    }

    /// Exponential backoff: `dur * 2^attempt` before the retry that
    /// follows attempt `attempt`.
    pub fn exponential(self, dur: Duration) -> (m: Mulligan<T, E, Cond, Jit, Exponential>)
        ensures
            self.same_frame(&m),
            m.strategy().base_spec() == dur,
            m.transform() == self.transform(),
    {
        Mulligan {
            stop_after: self.stop_after,
            until: self.until,
            backoff: Exponential::base(dur),
            jitterable: self.jitterable,
            max: self.max,
            before_attempt: self.before_attempt,
            after_attempt: self.after_attempt,
            _phantom: PhantomData,
        }
    }

    /// Sets the observer that is told, once a run has decided to retry and
    /// before it waits, the index of the attempt to come.
    pub fn before_attempt<F>(self, before_attempt: F) -> (m: Self) where
        F: Fn(u32) + Send + Sync + 'static,

        requires
            forall|attempt: u32| call_requires(before_attempt, (attempt,)),
        ensures
            m.before_hook().is_some(),
            m.ceiling() == self.ceiling(),
            m.cap() == self.cap(),
            m.condition() == self.condition(),
            m.strategy() == self.strategy(),
            m.transform() == self.transform(),
            m.after_hook() == self.after_hook(),
    {
        let hook: Box<dyn BeforeAttempt> = Box::new(BeforeHook::new(before_attempt));
        let mut m = self;
        m.before_attempt = Some(hook);
        m
    }

    /// Sets the observer that is told, once a run has waited and before it
    /// counts on, the result and the index of the attempt that failed.
    pub fn after_attempt<F>(self, after_attempt: F) -> (m: Self) where
        F: Fn(&Result<T, E>, u32) + Send + Sync + 'static,
        T: Send + Sync + 'static,
        E: Send + Sync + 'static,

        requires
            forall|result: &Result<T, E>, attempt: u32|
                call_requires(after_attempt, (result, attempt)),
        ensures
            m.after_hook().is_some(),
            m.ceiling() == self.ceiling(),
            m.cap() == self.cap(),
            m.condition() == self.condition(),
            m.strategy() == self.strategy(),
            m.transform() == self.transform(),
            m.before_hook() == self.before_hook(),
    {
        let hook: Box<dyn AfterAttempt<T, E>> = Box::new(AfterHook::new(after_attempt));
        let mut m = self;
        m.after_attempt = Some(hook);
        m
    }

    /// Whether `other` is this policy but for the state of its jitter
    /// transform.
    pub open spec fn same_policy(&self, other: &Self) -> bool {
        &&& self.same_frame(other)
        &&& other.strategy() == self.strategy()
    }

    /// The delay to wait after attempt `attempt`: the backoff's nominal
    /// delay at that attempt, put through the jitter transform and held to
    /// the cap.
    pub fn calculate_delay(&mut self, attempt: u32) -> (d: Duration)
        requires
            old(self).wf(),
        ensures
            final(self).wf(),
            old(self).same_policy(final(self)),
            within_cap(d, old(self).cap()),
            old(self).transform().allows(
                old(self).strategy().delay_spec(attempt),
                cap_nanos(old(self).cap()),
                &final(self).transform(),
                nanos_of(d),
            ),
    {
        let delay = self.backoff.delay(attempt);
        let d = self.jitterable.jitter(delay, self.max);
        assert forall|result: &Result<T, E>| call_requires(self.condition(), (result,)) by {
            assert(call_requires(old(self).condition(), (result,)));
        }
        d
    }

    /// Evaluates the stop condition on the result of attempt `attempt`:
    /// the ceiling is reached, or the predicate holds of the result.
    pub fn should_stop(&self, result: &Result<T, E>, attempt: u32) -> (stop: bool)
        requires
            self.wf(),
        ensures
            exists|fired: bool| #[trigger]
                call_ensures(self.condition(), (result,), fired) && stop == stop_spec(
                    fired,
                    attempt,
                    self.ceiling(),
                ),
    {
        assert(call_requires(self.condition(), (result,)));
        should_stop(&self.until, result, attempt, self.stop_after)
    }

    /// Whether an attempt ceiling is configured.
    pub fn has_ceiling(&self) -> (yes: bool)
        ensures
            yes == self.ceiling().is_some(),
    {
        self.stop_after.is_some()
    }

    /// Tells the `before_attempt` observer, if there is one, that attempt
    /// `attempt` is about to be made.
    pub fn notify_before(&self, attempt: u32) {
        if let Some(hook) = &self.before_attempt {
            hook.notify(attempt);
        }
    }

    /// Tells the `after_attempt` observer, if there is one, that attempt
    /// `attempt` ended in `result`.
    pub fn notify_after(&self, result: &Result<T, E>, attempt: u32) {
        if let Some(hook) = &self.after_attempt {
            hook.notify(result, attempt);
        }
    }
}

} // verus!
