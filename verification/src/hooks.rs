//! Observation hooks: optional callbacks around the wait between two
//! attempts. They observe a run and never steer it.

use vstd::prelude::*;

verus! {

/// An observer told that a retry is about to be waited for.
pub trait BeforeAttempt: Send + Sync {
    /// Tells the observer that attempt `attempt` is about to be made.
    fn notify(&self, attempt: u32);
}

/// An observer told the result of an attempt that is being retried.
pub trait AfterAttempt<T, E>: Send + Sync {
    /// Tells the observer that attempt `attempt` ended in `result`.
    fn notify(&self, result: &Result<T, E>, attempt: u32);
}

/// A closure that accepts every attempt index, as a `BeforeAttempt`
/// observer.
pub struct BeforeHook<F: Fn(u32)>(F);

impl<F: Fn(u32)> BeforeHook<F> {
    #[verifier::type_invariant]
    spec fn accepts_all(self) -> bool {
        forall|attempt: u32| call_requires(self.0, (attempt,))
    }

    /// The closure that is told.
    pub closed spec fn callback(&self) -> F {
        self.0
    }

    /// Wraps `f`, which must accept every attempt index.
    pub fn new(f: F) -> (hook: Self)
        requires
            forall|attempt: u32| call_requires(f, (attempt,)),
        ensures
            hook.callback() == f,
    {
        BeforeHook(f)
    }
}

impl<F: Fn(u32) + Send + Sync> BeforeAttempt for BeforeHook<F> {
    fn notify(&self, attempt: u32) {
        proof {
            use_type_invariant(self);
        }
        (self.0)(attempt)
    }
}

/// A closure that accepts every result and attempt index, as an
/// `AfterAttempt` observer.
#[verifier::reject_recursive_types(T)]
#[verifier::reject_recursive_types(E)]
pub struct AfterHook<T, E, F: Fn(&Result<T, E>, u32)>(F, std::marker::PhantomData<(T, E)>);

impl<T, E, F: Fn(&Result<T, E>, u32)> AfterHook<T, E, F> {
    #[verifier::type_invariant]
    spec fn accepts_all(self) -> bool {
        forall|result: &Result<T, E>, attempt: u32| call_requires(self.0, (result, attempt))
    }

    /// The closure that is told.
    pub closed spec fn callback(&self) -> F {
        self.0
    }

    /// Wraps `f`, which must accept every result and attempt index.
    pub fn new(f: F) -> (hook: Self)
        requires
            forall|result: &Result<T, E>, attempt: u32| call_requires(f, (result, attempt)),
        ensures
            hook.callback() == f,
    {
        AfterHook(f, std::marker::PhantomData)
    }
}

impl<T: Send + Sync, E: Send + Sync, F: Fn(&Result<T, E>, u32) + Send + Sync> AfterAttempt<T, E> for AfterHook<T, E, F> {
    fn notify(&self, result: &Result<T, E>, attempt: u32) {
        proof {
            use_type_invariant(self);
        }
        (self.0)(result, attempt)
    }
}

} // verus!
