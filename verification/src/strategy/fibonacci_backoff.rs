use crate::duration::{duration_nanos, is_millis};
use crate::strategy::{is_run, FusedStrategy, RetryStrategy};
use std::time::Duration;
use vstd::prelude::*;

verus! {

/// The sum of `a` and `b`, clamped to the largest `u64`.
pub open spec fn saturating_sum(a: nat, b: nat) -> nat {
    if a + b > u64::MAX {
        u64::MAX as nat
    } else {
        a + b
    }
}

/// A retry strategy driven by the fibonacci series.
///
/// Each retry uses a delay which is the sum of the two previous delays.
///
/// Depending on the problem at hand, a fibonacci retry strategy might
/// perform better and lead to better throughput than the `ExponentialBackoff`
/// strategy.
#[derive(Debug, Clone, Copy)]
pub struct FibonacciBackoff {
    curr: u64,
    next: u64,
}

impl FibonacciBackoff {
    /// Milliseconds that the next pull yields.
    pub closed spec fn current(&self) -> nat {
        self.curr as nat
    }

    /// Milliseconds that the pull after the next yields.
    pub closed spec fn following(&self) -> nat {
        self.next as nat
    }

    /// Both parts of the state are milliseconds that fit a `u64`.
    pub proof fn lemma_state_fits(self)
        ensures
            self.current() <= u64::MAX,
            self.following() <= u64::MAX,
    {
    }

    /// Constructs a new fibonacci back-off strategy,
    /// given a base duration in milliseconds.
    pub fn from_millis(millis: u64) -> (s: FibonacciBackoff)
        ensures
            s.current() == millis,
            s.following() == millis,
    {
        FibonacciBackoff { curr: millis, next: millis }
    }
}

impl RetryStrategy for FibonacciBackoff {
    open spec fn pull(&self, out: Option<Duration>, next: &Self) -> bool {
        &&& out matches Some(d)
        &&& is_millis(d, self.current())
        &&& next.current() == self.following()
        &&& next.following() == saturating_sum(self.current(), self.following())
    }

    fn delay(&mut self) -> (out: Option<Duration>) {
        let duration = Duration::from_millis(self.curr);
        let sum = self.curr.checked_add(self.next);
        self.curr = self.next;
        self.next = match sum {
            Some(next_next) => next_next,
            None => u64::MAX,
        };
        Some(duration)
    }
}

impl FusedStrategy for FibonacciBackoff {
    open spec fn exhausted(&self) -> bool {
        false
    }

    proof fn lemma_none_is_permanent(&self, out: Option<Duration>, next: &Self) {
    }
}

/// Fibonacci back-off from base `b`: pull `i` yields `states[i].current()`
/// milliseconds; the first two yields are `b`, and every later yield is the
/// sum of the two yields before it, clamped to the largest `u64`.
pub proof fn lemma_fibonacci_sequence(
    states: Seq<FibonacciBackoff>,
    outs: Seq<Option<Duration>>,
    i: int,
)
    requires
        is_run(states, outs),
        states[0].current() == states[0].following(),
        0 <= i < outs.len(),
    ensures
        outs[i] matches Some(d) && is_millis(d, states[i].current()),
        i < 2 ==> states[i].current() == states[0].current(),
        i >= 2 ==> states[i].current() == saturating_sum(
            states[i - 2].current(),
            states[i - 1].current(),
        ),
{
    assert(states[i].pull(outs[i], &states[i + 1]));
    if i >= 1 {
        assert(states[i - 1].pull(outs[i - 1], &states[i - 1 + 1]));
    }
    if i >= 2 {
        assert(states[i - 2].pull(outs[i - 2], &states[i - 2 + 1]));
    }
}

/// Fibonacci back-off is deterministic: a pull has one possible successor,
/// and all its possible yields are equally long.
pub proof fn lemma_fibonacci_backoff_is_deterministic(
    strategy: FibonacciBackoff,
    out1: Option<Duration>,
    next1: FibonacciBackoff,
    out2: Option<Duration>,
    next2: FibonacciBackoff,
)
    requires
        strategy.pull(out1, &next1),
        strategy.pull(out2, &next2),
    ensures
        out1 is Some && out2 is Some && duration_nanos(out1->0) == duration_nanos(out2->0),
        next1 == next2,
{
}

} // verus!
