//! Backoff strategies: the nominal delay before a retry as a function of
//! the attempt index.

use crate::time::{from_nanos, nanos_of, saturate, MAX_NANOS};
use std::time::Duration;
use vstd::arithmetic::power2::{lemma_pow2_strictly_increases, lemma_pow2_unfold, pow2};
use vstd::prelude::*;

verus! {

/// Nanoseconds of the linear backoff: `base * attempt`, clamped to the
/// largest representable duration.
pub open spec fn linear_nanos(base: nat, attempt: nat) -> nat {
    saturate(base * attempt)
}

/// Nanoseconds of the exponential backoff: `base * 2^attempt`, clamped to
/// the largest representable duration.
pub open spec fn exponential_nanos(base: nat, attempt: nat) -> nat {
    saturate(base * pow2(attempt))
}

/// A strategy that turns an attempt index into a nominal delay.
pub trait Backoff {
    /// The base duration the strategy was built from.
    spec fn base_spec(&self) -> Duration;

    /// Nanoseconds of the nominal delay at `attempt`.
    spec fn delay_spec(&self, attempt: u32) -> nat;

    /// The nominal delay before the retry that follows attempt `attempt`.
    fn delay(&self, attempt: u32) -> (d: Duration)
        ensures
            nanos_of(d) == self.delay_spec(attempt),
    ;

    /// The base duration the strategy was built from.
    fn base(&self) -> (d: Duration)
        ensures
            d == self.base_spec(),
    ;
}

/// The same delay before every retry.
pub struct Fixed(Duration);

impl Fixed {
    /// A fixed backoff of `dur`.
    pub fn base(dur: Duration) -> (s: Self)
        ensures
            s.base_spec() == dur,
    {
        Self(dur)
    }
}

impl Backoff for Fixed {
    closed spec fn base_spec(&self) -> Duration {
        self.0
    }

    open spec fn delay_spec(&self, attempt: u32) -> nat {
        nanos_of(self.base_spec())
    }

    fn base(&self) -> (d: Duration) {
        self.0
    }

    fn delay(&self, _attempt: u32) -> (d: Duration)
        ensures
            d == self.base_spec(),
    {
        self.0
    }
}

/// `base * attempt` in nanoseconds, clamped to the largest representable
/// duration.
pub fn scaled_nanos(base: u128, attempt: u32) -> (d: u128)
    ensures
        d == linear_nanos(base as nat, attempt as nat),
{
    if attempt == 0 {
        assert(base * 0 == 0);
        0
    } else if base >= MAX_NANOS {
        assert(base * attempt >= MAX_NANOS) by (nonlinear_arith)
            requires
                base >= MAX_NANOS,
                attempt >= 1,
        ;
        MAX_NANOS
    } else {
        assert(base * attempt <= MAX_NANOS * 0x1_0000_0000) by (nonlinear_arith)
            requires
                base < MAX_NANOS,
                attempt < 0x1_0000_0000,
        ;
        let product: u128 = base * (attempt as u128);
        if product > MAX_NANOS {
            MAX_NANOS
        } else {
            product
        }
    }
}

/// A delay that grows by the base with every attempt.
pub struct Linear(Duration);

impl Linear {
    /// A linear backoff with step `dur`.
    pub fn base(dur: Duration) -> (s: Self)
        ensures
            s.base_spec() == dur,
    {
        Self(dur)
    }
}

impl Backoff for Linear {
    closed spec fn base_spec(&self) -> Duration {
        self.0
    }

    open spec fn delay_spec(&self, attempt: u32) -> nat {
        linear_nanos(nanos_of(self.base_spec()), attempt as nat)
    }

    fn base(&self) -> (d: Duration) {
        self.0
    }

    fn delay(&self, attempt: u32) -> (d: Duration) {
        from_nanos(scaled_nanos(self.0.as_nanos(), attempt))
    }
}

/// A delay that doubles with every attempt.
pub struct Exponential(Duration);

impl Exponential {
    /// An exponential backoff that starts at `dur`.
    pub fn base(dur: Duration) -> (s: Self)
        ensures
            s.base_spec() == dur,
    {
        Self(dur)
    }
}

/// One more doubling multiplies the scaled base by two.
pub proof fn lemma_doubling_step(n: nat, i: nat)
    ensures
        n * pow2(i + 1) == 2 * (n * pow2(i)),
{
    lemma_pow2_unfold(i + 1);
    assert(n * (2 * pow2(i)) == 2 * (n * pow2(i))) by (nonlinear_arith);
}

/// The scaled base never shrinks as the exponent grows.
pub proof fn lemma_doubling_monotone(n: nat, i: nat, j: nat)
    requires
        i <= j,
    ensures
        n * pow2(i) <= n * pow2(j),
{
    if i < j {
        lemma_pow2_strictly_increases(i, j);
    }
    assert(n * pow2(i) <= n * pow2(j)) by (nonlinear_arith)
        requires
            pow2(i) <= pow2(j),
    ;
}

/// The exponential backoff never shrinks as the attempt index grows, and
/// never exceeds the largest representable duration.
pub proof fn lemma_exponential_monotone(base: nat, i: nat, j: nat)
    requires
        i <= j,
    ensures
        exponential_nanos(base, i) <= exponential_nanos(base, j) <= MAX_NANOS,
{
    lemma_doubling_monotone(base, i, j);
}

/// From attempt 94 on, the exponential backoff of any base but zero is
/// the largest representable duration: `2^94` nanoseconds alone exceed it.
pub proof fn lemma_exponential_saturates(base: nat, attempt: nat)
    requires
        base > 0,
        attempt >= 94,
    ensures
        exponential_nanos(base, attempt) == MAX_NANOS,
{
    vstd::arithmetic::power2::lemma2_to64();
    vstd::arithmetic::power2::lemma_pow2_adds(64, 30);
    assert(pow2(94) > MAX_NANOS) by (nonlinear_arith)
        requires
            pow2(94) == pow2(64) * pow2(30),
            pow2(64) == 0x1_0000_0000_0000_0000,
            pow2(30) == 0x4000_0000,
    ;
    lemma_doubling_monotone(1, 94, attempt);
    assert(base * pow2(attempt) >= pow2(attempt)) by (nonlinear_arith)
        requires
            base >= 1,
    ;
}

/// The linear backoff is zero at attempt 0, whatever the base.
pub proof fn lemma_linear_starts_at_zero(base: nat)
    ensures
        linear_nanos(base, 0) == 0,
{
    assert(base * 0 == 0);
}

/// `base * 2^attempt` in nanoseconds, clamped to the largest representable
/// duration. Doubles step by step and stops early once the value can no
/// longer change.
pub fn doubled_nanos(base: u128, attempt: u32) -> (d: u128)
    ensures
        d == exponential_nanos(base as nat, attempt as nat),
{
    let mut d: u128 = if base > MAX_NANOS { MAX_NANOS } else { base };
    let mut i: u32 = 0;
    proof {
        vstd::arithmetic::power2::lemma2_to64();
        assert(base * pow2(0) == base);
    }
    while i < attempt && 0 < d && d < MAX_NANOS
        invariant
            i <= attempt,
            d == exponential_nanos(base as nat, i as nat),
        decreases attempt - i,
    {
        proof {
            lemma_doubling_step(base as nat, i as nat);
        }
        d = if d > MAX_NANOS / 2 { MAX_NANOS } else { d * 2 };
        i = i + 1;
    }
    proof {
        lemma_doubling_monotone(base as nat, i as nat, attempt as nat);
        if d == 0 {
            vstd::arithmetic::power2::lemma_pow2_pos(i as nat);
            assert(base == 0) by (nonlinear_arith)
                requires
                    base * pow2(i as nat) == 0,
                    pow2(i as nat) > 0,
            ;
            assert(base * pow2(attempt as nat) == 0) by (nonlinear_arith)
                requires
                    base == 0,
            ;
        }
    }
    d
}

impl Backoff for Exponential {
    closed spec fn base_spec(&self) -> Duration {
        self.0
    }

    open spec fn delay_spec(&self, attempt: u32) -> nat {
        exponential_nanos(nanos_of(self.base_spec()), attempt as nat)
    }

    fn base(&self) -> (d: Duration) {
        self.0
    }

    fn delay(&self, attempt: u32) -> (d: Duration) {
        from_nanos(doubled_nanos(self.0.as_nanos(), attempt))
    }
}

} // verus!
