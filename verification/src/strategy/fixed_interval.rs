use crate::duration::duration_nanos;
use crate::strategy::{FusedStrategy, RetryStrategy};
use std::time::Duration;
use vstd::prelude::*;

verus! {

/// A retry strategy driven by a fixed interval.
#[derive(Clone, Copy)]
pub struct FixedInterval {
    duration: Duration,
}

impl FixedInterval {
    /// The interval that every pull yields.
    pub closed spec fn interval(&self) -> Duration {
        self.duration
    }

    /// Constructs a new fixed interval strategy.
    pub fn new(duration: Duration) -> (s: FixedInterval)
        ensures
            s.interval() == duration,
    {
        FixedInterval { duration }
    }

    /// Constructs a new fixed interval strategy, given a duration in
    /// milliseconds.
    pub fn from_millis(millis: u64) -> (s: FixedInterval)
        ensures
            duration_nanos(s.interval()) == millis * 1_000_000,
    {
        FixedInterval { duration: Duration::from_millis(millis) }
    }
}

impl RetryStrategy for FixedInterval {
    open spec fn pull(&self, out: Option<Duration>, next: &Self) -> bool {
        out == Some(self.interval()) && *next == *self
    }

    fn delay(&mut self) -> (out: Option<Duration>) {
        Some(self.duration)
    }
}

impl FusedStrategy for FixedInterval {
    open spec fn exhausted(&self) -> bool {
        false
    }

    proof fn lemma_none_is_permanent(&self, out: Option<Duration>, next: &Self) {
    }
}

/// A fixed interval is deterministic: a pull has one possible yield, the
/// interval, and leaves the strategy as it was.
pub proof fn lemma_fixed_interval_is_deterministic(
    strategy: FixedInterval,
    out1: Option<Duration>,
    next1: FixedInterval,
    out2: Option<Duration>,
    next2: FixedInterval,
)
    requires
        strategy.pull(out1, &next1),
        strategy.pull(out2, &next2),
    ensures
        out1 == out2,
        next1 == next2,
{
}

} // verus!
