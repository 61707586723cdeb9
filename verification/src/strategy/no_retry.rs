use crate::strategy::{FusedStrategy, RetryStrategy};
use std::time::Duration;
use vstd::prelude::*;

verus! {

/// A retry strategy that will not attempt any retries.
pub struct NoRetry {}

impl RetryStrategy for NoRetry {
    open spec fn pull(&self, out: Option<Duration>, next: &Self) -> bool {
        out is None
    }

    fn delay(&mut self) -> (out: Option<Duration>) {
        None
    }
}

impl FusedStrategy for NoRetry {
    open spec fn exhausted(&self) -> bool {
        true
    }

    proof fn lemma_none_is_permanent(&self, out: Option<Duration>, next: &Self) {
    }
}

} // verus!
