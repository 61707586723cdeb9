use crate::duration::{duration_nanos, min_duration, shorter};
use crate::strategy::{FusedStrategy, RetryStrategy};
use std::time::Duration;
use vstd::prelude::*;

verus! {

/// A decorator limiting the delay between attempts.
#[derive(Debug)]
pub struct LimitedDelay<S: RetryStrategy> {
    inner: S,
    maximum: Duration,
}

/// Clamps every wait that `inner` yields to `maximum`.
pub fn limit_delay<S: RetryStrategy>(inner: S, maximum: Duration) -> (s: LimitedDelay<S>)
    ensures
        s.inner() == inner,
        s.maximum() == maximum,
{
    LimitedDelay { inner, maximum }
}

impl<S: RetryStrategy> LimitedDelay<S> {
    /// The decorated strategy, as the pulls so far have left it.
    pub closed spec fn inner(&self) -> S {
        self.inner
    }

    /// The longest wait that is handed out.
    pub closed spec fn maximum(&self) -> Duration {
        self.maximum
    }
}

impl<S: RetryStrategy> RetryStrategy for LimitedDelay<S> {
    open spec fn pull(&self, out: Option<Duration>, next: &Self) -> bool {
        &&& next.maximum() == self.maximum()
        &&& match out {
            Some(wait) => exists|raw: Duration|
                {
                    &&& #[trigger] self.inner().pull(Some(raw), &next.inner())
                    &&& wait == shorter(raw, self.maximum())
                },
            None => self.inner().pull(None, &next.inner()),
        }
    }

    fn delay(&mut self) -> (out: Option<Duration>)
        ensures
            out matches Some(wait) ==> duration_nanos(wait) <= duration_nanos(
                old(self).maximum(),
            ),
    {
        match self.inner.delay() {
            Some(duration) => {
                assert(old(self).inner().pull(Some(duration), &self.inner()));
                Some(min_duration(duration, self.maximum))
            },
            None => None,
        }
    }
}

impl<S: FusedStrategy> FusedStrategy for LimitedDelay<S> {
    open spec fn exhausted(&self) -> bool {
        self.inner().exhausted()
    }

    proof fn lemma_none_is_permanent(&self, out: Option<Duration>, next: &Self) {
        match out {
            Some(wait) => {
                let raw = choose|raw: Duration|
                    {
                        &&& #[trigger] self.inner().pull(Some(raw), &next.inner())
                        &&& wait == shorter(raw, self.maximum())
                    };
                self.inner().lemma_none_is_permanent(Some(raw), &next.inner());
            },
            None => {
                self.inner().lemma_none_is_permanent(None, &next.inner());
            },
        }
    }
}

} // verus!
