//! The stop condition: a caller-supplied predicate on the latest result,
//! joined by logical OR with an optional ceiling on the attempt index.

use vstd::prelude::*;

verus! {

/// Whether `attempt` has reached the ceiling. Without a ceiling no attempt
/// ever does.
pub open spec fn reached_ceiling(attempt: u32, ceiling: Option<u32>) -> bool {
    match ceiling {
        Some(c) => attempt >= c,
        None => false,
    }
}

/// Whether a run stops after attempt `attempt`, given whether the
/// predicate fired on its result.
pub open spec fn stop_spec(fired: bool, attempt: u32, ceiling: Option<u32>) -> bool {
    reached_ceiling(attempt, ceiling) || fired
}

/// Decides whether a run stops after attempt `attempt`, from the
/// predicate's verdict on its result.
pub fn stop_decision(fired: bool, attempt: u32, ceiling: Option<u32>) -> (stop: bool)
    ensures
        stop == stop_spec(fired, attempt, ceiling),
{
    let reached = match ceiling {
        Some(c) => attempt >= c,
        None => false,
    };
    reached || fired
}

/// Evaluates the stop condition on the result of attempt `attempt`. The
/// predicate is consulted on every call, whether or not the ceiling has
/// been reached.
pub fn should_stop<T, E, Cond>(
    until: &Cond,
    result: &Result<T, E>,
    attempt: u32,
    ceiling: Option<u32>,
) -> (stop: bool) where Cond: Fn(&Result<T, E>) -> bool
    requires
        call_requires(*until, (result,)),
    ensures
        exists|fired: bool| #[trigger]
            call_ensures(*until, (result,), fired) && stop == stop_spec(fired, attempt, ceiling),
{
    let fired = until(result);
    stop_decision(fired, attempt, ceiling)
}

/// The index of the attempt after which a run stops, looking from
/// `attempt` on, where `fires(a)` tells whether the predicate fires on the
/// result of attempt `a` and the ceiling is `ceiling`. A run evaluates the
/// stop condition after every attempt and moves on by one index when it
/// does not hold.
pub open spec fn stopping_attempt(fires: spec_fn(u32) -> bool, ceiling: u32, attempt: u32) -> u32
    decreases ceiling - attempt,
{
    if stop_spec(fires(attempt), attempt, Some(ceiling)) {
        attempt
    } else {
        stopping_attempt(fires, ceiling, (attempt + 1) as u32)
    }
}

/// The number of times a run with ceiling `ceiling` invokes its operation.
pub open spec fn invocations(fires: spec_fn(u32) -> bool, ceiling: u32) -> nat {
    (stopping_attempt(fires, ceiling, 0) + 1) as nat
}

/// From `attempt` on, a run stops at the first attempt that meets the
/// stop condition and at none before it.
pub proof fn lemma_stops_at_first(fires: spec_fn(u32) -> bool, ceiling: u32, attempt: u32)
    ensures
        ({
            let last = stopping_attempt(fires, ceiling, attempt);
            &&& attempt <= last
            &&& stop_spec(fires(last), last, Some(ceiling))
            &&& forall|a: u32| attempt <= a < last ==> !stop_spec(#[trigger] fires(a), a, Some(ceiling))
        }),
    decreases ceiling - attempt,
{
    if !stop_spec(fires(attempt), attempt, Some(ceiling)) {
        lemma_stops_at_first(fires, ceiling, (attempt + 1) as u32);
    }
}

/// A ceiling of `n` permits the attempts `0..=n` and no more: a run makes
/// at most `n + 1` invocations, and exactly `n + 1` when the predicate
/// fires on none of the results before attempt `n`.
pub proof fn lemma_ceiling_permits_one_more(fires: spec_fn(u32) -> bool, ceiling: u32)
    ensures
        invocations(fires, ceiling) <= ceiling + 1,
        (forall|a: u32| a < ceiling ==> !#[trigger] fires(a)) ==> invocations(fires, ceiling)
            == ceiling + 1,
{
    lemma_stops_at_first(fires, ceiling, 0);
    let last = stopping_attempt(fires, ceiling, 0);
    if last > ceiling {
        assert(!stop_spec(fires(ceiling), ceiling, Some(ceiling)));
    }
    if forall|a: u32| a < ceiling ==> !#[trigger] fires(a) {
        if last < ceiling {
            assert(!fires(last));
        }
    }
}

} // verus!
