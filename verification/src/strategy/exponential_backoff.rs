use crate::duration::{duration_nanos, is_millis};
use crate::strategy::{is_run, FusedStrategy, RetryStrategy};
use std::time::Duration;
use vstd::arithmetic::power::{lemma0_pow, lemma_pow0, lemma_pow1, lemma_pow_positive, pow};
use vstd::prelude::*;

verus! {

/// The product of `a` and `b`, clamped to the largest `u64`.
pub open spec fn saturating_product(a: nat, b: nat) -> nat {
    if a * b > u64::MAX {
        u64::MAX as nat
    } else {
        a * b
    }
}

/// `base` to the power `exponent`, clamped to the largest `u64`.
pub open spec fn saturating_power(base: nat, exponent: nat) -> nat {
    if pow(base as int, exponent) > u64::MAX {
        u64::MAX as nat
    } else {
        pow(base as int, exponent) as nat
    }
}

/// A retry strategy driven by exponential back-off.
///
/// The power corresponds to the number of past attempts.
#[derive(Debug, Clone, Copy)]
pub struct ExponentialBackoff {
    current: u64,
    base: u64,
    factor: u64,
}

impl ExponentialBackoff {
    /// Milliseconds that the next pull yields, before the factor is applied.
    pub closed spec fn current(&self) -> nat {
        self.current as nat
    }

    /// The base that `current` is multiplied by after every pull.
    pub closed spec fn base(&self) -> nat {
        self.base as nat
    }

    /// The factor applied to every yield.
    pub closed spec fn scale(&self) -> nat {
        self.factor as nat
    }

    /// All parts of the state fit a `u64`.
    pub proof fn lemma_state_fits(self)
        ensures
            self.current() <= u64::MAX,
            self.base() <= u64::MAX,
            self.scale() <= u64::MAX,
    {
    }

    /// Constructs a new exponential back-off strategy,
    /// given a base duration in milliseconds.
    ///
    /// The resulting duration is calculated by taking the base to the `n`-th power,
    /// where `n` denotes the number of past attempts.
    pub fn from_millis(base: u64) -> (s: ExponentialBackoff)
        ensures
            s.current() == base,
            s.base() == base,
            s.scale() == 1,
    {
        ExponentialBackoff { current: base, base, factor: 1u64 }
    }

    /// A multiplicative factor that will be applied to the retry delay.
    ///
    /// For example, using a factor of `1000` will make each delay in units of seconds.
    ///
    /// Default factor is `1`.
    pub fn factor(self, factor: u64) -> (s: ExponentialBackoff)
        ensures
            s.current() == self.current(),
            s.base() == self.base(),
            s.scale() == factor,
    {
        ExponentialBackoff { current: self.current, base: self.base, factor }
    }
}

impl RetryStrategy for ExponentialBackoff {
    open spec fn pull(&self, out: Option<Duration>, next: &Self) -> bool {
        &&& out matches Some(d)
        &&& is_millis(d, saturating_product(self.current(), self.scale()))
        &&& next.current() == saturating_product(self.current(), self.base())
        &&& next.base() == self.base()
        &&& next.scale() == self.scale()
    }

    fn delay(&mut self) -> (out: Option<Duration>) {
        let duration = match self.current.checked_mul(self.factor) {
            Some(millis) => Duration::from_millis(millis),
            None => Duration::from_millis(u64::MAX),
        };
        self.current = match self.current.checked_mul(self.base) {
            Some(next) => next,
            None => u64::MAX,
        };
        Some(duration)
    }
}

impl FusedStrategy for ExponentialBackoff {
    open spec fn exhausted(&self) -> bool {
        false
    }

    proof fn lemma_none_is_permanent(&self, out: Option<Duration>, next: &Self) {
    }
}

/// Multiplying a clamped power by its base gives the next clamped power.
proof fn lemma_saturating_power_step(base: nat, n: nat)
    ensures
        saturating_product(saturating_power(base, n), base) == saturating_power(base, n + 1),
{
    let b = base as int;
    let p = pow(b, n);
    assert(pow(b, n + 1) == b * p) by {
        reveal(pow);
    }
    if base == 0 {
        if n == 0 {
            lemma_pow0(b);
        } else {
            lemma0_pow(n);
        }
        assert(b * p == 0) by (nonlinear_arith)
            requires
                b == 0,
        ;
        assert(saturating_power(base, n) * base == 0) by (nonlinear_arith)
            requires
                base == 0,
        ;
    } else {
        lemma_pow_positive(b, n);
        assert(b * p == p * b) by (nonlinear_arith);
        if p > u64::MAX {
            assert(p * b >= p) by (nonlinear_arith)
                requires
                    p > 0,
                    b >= 1,
            ;
            assert((u64::MAX as nat) * base >= u64::MAX) by (nonlinear_arith)
                requires
                    base >= 1,
            ;
        }
    }
}

/// Exponential back-off from base `b` yields `b`, `b * b`, `b * b * b` and so
/// on, each clamped to the largest `u64` and then scaled by the factor: the
/// yield of pull `i` is the clamped power `b^(i + 1)` milliseconds times the
/// factor, clamped again.
pub proof fn lemma_exponential_sequence(
    states: Seq<ExponentialBackoff>,
    outs: Seq<Option<Duration>>,
    i: int,
)
    requires
        is_run(states, outs),
        states[0].current() == states[0].base(),
        0 <= i < outs.len(),
    ensures
        states[i].base() == states[0].base(),
        states[i].scale() == states[0].scale(),
        states[i].current() == saturating_power(states[0].base(), (i + 1) as nat),
        outs[i] matches Some(d) && is_millis(
            d,
            saturating_product(
                saturating_power(states[0].base(), (i + 1) as nat),
                states[0].scale(),
            ),
        ),
    decreases i,
{
    let base = states[0].base();
    if i == 0 {
        lemma_pow1(base as int);
    } else {
        lemma_exponential_sequence(states, outs, i - 1);
        assert(states[i - 1].pull(outs[i - 1], &states[i - 1 + 1]));
        lemma_saturating_power_step(base, i as nat);
    }
    assert(states[i].pull(outs[i], &states[i + 1]));
}

/// Exponential back-off is deterministic: a pull has one possible successor,
/// and all its possible yields are equally long.
pub proof fn lemma_exponential_backoff_is_deterministic(
    strategy: ExponentialBackoff,
    out1: Option<Duration>,
    next1: ExponentialBackoff,
    out2: Option<Duration>,
    next2: ExponentialBackoff,
)
    requires
        strategy.pull(out1, &next1),
        strategy.pull(out2, &next2),
    ensures
        out1 is Some && out2 is Some && duration_nanos(out1->0) == duration_nanos(out2->0),
        next1 == next2,
{
}

} // verus!
