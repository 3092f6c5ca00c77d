//! The retry loop as a state machine. A driver invokes the operation,
//! hands each result to `on_result`, sleeps when told to, and reports the
//! end of the sleep with `on_wake`. Every decision of the loop is taken
//! here; the driver only performs what it is told.

use crate::backoff::Backoff;
use crate::jitter::Jitter;
use crate::stop::stop_spec;
use crate::time::{cap_nanos, nanos_of, within_cap};
use crate::Mulligan;
use std::time::Duration;
use vstd::prelude::*;

verus! {

/// Where a run stands between two transitions.
#[derive(Clone, Copy, Debug, PartialEq, Eq, Structural)]
pub enum Phase {
    /// The operation is to be invoked; its result is awaited.
    Invoking,
    /// The delay before the next attempt is being waited for.
    Suspending,
    /// The stop condition fired; the last result goes to the caller.
    Stopped,
}

/// What the driver is to do after a result was evaluated.
#[derive(Clone, Copy, Debug)]
pub enum Action {
    /// Return the result just evaluated; invoke nothing more.
    Stop,
    /// Wait for the given delay, then report it with `on_wake`.
    Sleep(Duration),
}

/// One run of a retry policy: the policy, the index of the current
/// attempt and the phase the run is in.
#[verifier::reject_recursive_types(T)]
#[verifier::reject_recursive_types(E)]
pub struct Retry<T, E, Cond, Jit, Back> where
    Cond: Fn(&Result<T, E>) -> bool,
    Jit: Jitter,
    Back: Backoff,
 {
    policy: Mulligan<T, E, Cond, Jit, Back>,
    attempt: u32,
    phase: Phase,
}

impl<T, E, Cond, Jit, Back> Retry<T, E, Cond, Jit, Back> where
    Cond: Fn(&Result<T, E>) -> bool,
    Jit: Jitter,
    Back: Backoff,
 {
    /// The policy of the run, with the current state of its jitter.
    pub closed spec fn policy_spec(&self) -> Mulligan<T, E, Cond, Jit, Back> {
        self.policy
    }

    /// The index of the current attempt.
    pub closed spec fn attempt_spec(&self) -> u32 {
        self.attempt
    }

    /// The phase the run is in.
    pub closed spec fn phase_spec(&self) -> Phase {
        self.phase
    }

    /// The invariant of a run: its policy is well formed, and while it
    /// waits there is an attempt index left to count on to.
    pub open spec fn wf(&self) -> bool {
        &&& self.policy_spec().wf()
        &&& self.phase_spec() == Phase::Suspending ==> self.attempt_spec() < u32::MAX
    }

    /// Whether a result can be evaluated: the run awaits one, and should
    /// it continue, the attempt index can still grow.
    pub open spec fn awaits_result(&self) -> bool {
        &&& self.phase_spec() == Phase::Invoking
        &&& self.attempt_spec() < u32::MAX || self.policy_spec().ceiling().is_some()
    }

    /// A run of `policy` that is about to make attempt 0.
    pub fn new(policy: Mulligan<T, E, Cond, Jit, Back>) -> (run: Self)
        requires
            policy.wf(),
        ensures
            run.wf(),
            run.policy_spec() == policy,
            run.attempt_spec() == 0,
            run.phase_spec() == Phase::Invoking,
    {
        Retry { policy, attempt: 0, phase: Phase::Invoking }
    }

    /// The index of the current attempt.
    pub fn attempt(&self) -> (attempt: u32)
        ensures
            attempt == self.attempt_spec(),
    {
        self.attempt
    }

    /// The phase the run is in.
    pub fn phase(&self) -> (phase: Phase)
        ensures
            phase == self.phase_spec(),
    {
        self.phase
    }

    /// Whether `on_result` may be called.
    pub fn can_evaluate(&self) -> (ok: bool)
        ensures
            ok == self.awaits_result(),
    {
        let invoking = match self.phase {
            Phase::Invoking => true,
            _ => false,
        };
        invoking && (self.attempt < u32::MAX || self.policy.has_ceiling())
    }

    /// Whether `on_wake` may be called.
    pub fn is_suspended(&self) -> (ok: bool)
        ensures
            ok == (self.phase_spec() == Phase::Suspending),
    {
        match self.phase {
            Phase::Suspending => true,
            _ => false,
        }
    }

    /// Evaluates the result of the current attempt. If the stop condition
    /// holds the run is over and nothing else happens. Otherwise the delay
    /// is computed from the backoff at the current attempt index and put
    /// through the jitter, the `before_attempt` observer is told the index
    /// of the attempt to come, and the run waits.
    pub fn on_result(&mut self, result: &Result<T, E>) -> (action: Action)
        requires
            old(self).wf(),
            old(self).awaits_result(),
        ensures
            final(self).wf(),
            final(self).attempt_spec() == old(self).attempt_spec(),
            exists|fired: bool| #[trigger]
                call_ensures(old(self).policy_spec().condition(), (result,), fired) && (action
                    is Stop) == stop_spec(
                    fired,
                    old(self).attempt_spec(),
                    old(self).policy_spec().ceiling(),
                ),
            match action {
                Action::Stop => {
                    &&& final(self).phase_spec() == Phase::Stopped
                    &&& final(self).policy_spec() == old(self).policy_spec()
                },
                Action::Sleep(d) => {
                    &&& final(self).phase_spec() == Phase::Suspending
                    &&& old(self).policy_spec().same_policy(&final(self).policy_spec())
                    &&& within_cap(d, old(self).policy_spec().cap())
                    &&& old(self).policy_spec().transform().allows(
                        old(self).policy_spec().strategy().delay_spec(old(self).attempt_spec()),
                        cap_nanos(old(self).policy_spec().cap()),
                        &final(self).policy_spec().transform(),
                        nanos_of(d),
                    )
                },
            },
    {
        if self.policy.should_stop(result, self.attempt) {
            self.phase = Phase::Stopped;
            Action::Stop
        } else {
            let delay = self.policy.calculate_delay(self.attempt);
            self.policy.notify_before(self.attempt + 1);
            self.phase = Phase::Suspending;
            Action::Sleep(delay)
        }
    }

    /// Ends the wait. The `after_attempt` observer is told the result and
    /// the index of the attempt that is being retried, then the attempt
    /// index moves on by one and the operation is to be invoked again.
    pub fn on_wake(&mut self, result: &Result<T, E>)
        requires
            old(self).wf(),
            old(self).phase_spec() == Phase::Suspending,
        ensures
            final(self).wf(),
            final(self).phase_spec() == Phase::Invoking,
            final(self).attempt_spec() == old(self).attempt_spec() + 1,
            final(self).policy_spec() == old(self).policy_spec(),
    {
        self.policy.notify_after(result, self.attempt);
        self.attempt = self.attempt + 1;
        self.phase = Phase::Invoking;
    }
}

} // verus!
