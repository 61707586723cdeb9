use crate::duration::{duration_nanos, longer_than};
use crate::strategy::{FusedStrategy, RetryStrategy};
use std::time::{Duration, Instant};
use vstd::prelude::*;

verus! {

/// A point in time of the monotonic clock; nothing is known of its value.
#[verifier::external_type_specification]
#[verifier::external_body]
pub struct ExInstant(Instant);

/// `Instant::now`: the current reading of the clock, of which nothing is
/// claimed.
pub assume_specification[ Instant::now ]() -> Instant
;

/// `Instant::elapsed`: the time since the instant was taken, of which nothing
/// is claimed.
pub assume_specification[ Instant::elapsed ](start: &Instant) -> Duration
;

/// A strategy wrapper with applied deadline,
/// created by the [`Deadline::deadline`] function.
#[derive(Debug)]
pub struct DeadlineIterator<I> {
    iter: I,
    start: Instant,
    max_duration: Duration,
    expired: bool,
}

/// Wraps a strategy, applying deadline, after which strategy will
/// stop retrying.
pub trait Deadline: RetryStrategy {
    /// Applies a deadline for a strategy. In `max_duration` from now,
    /// the strategy will stop retrying.
    fn deadline(self, max_duration: Duration) -> (s: DeadlineIterator<Self>)
        ensures
            s.inner() == self,
            s.max_duration() == max_duration,
            !s.expired(),
    {
        DeadlineIterator { iter: self, start: Instant::now(), max_duration, expired: false }
    }
}

impl<I: RetryStrategy> Deadline for I {

}

impl<I: RetryStrategy> DeadlineIterator<I> {
    /// The decorated strategy, as the pulls so far have left it.
    pub closed spec fn inner(&self) -> I {
        self.iter
    }

    /// The time from the start after which the strategy gives up.
    pub closed spec fn max_duration(&self) -> Duration {
        self.max_duration
    }

    /// A pull has found the deadline passed.
    pub closed spec fn expired(&self) -> bool {
        self.expired
    }

    /// The instant from which the deadline counts.
    pub closed spec fn start(&self) -> Instant {
        self.start
    }

    /// Pulled when `elapsed` has passed since the start, `self` may yield
    /// `out` and become `next`: past the deadline, now or at an earlier pull,
    /// it yields `None` and leaves the decorated strategy alone; else the
    /// decorated strategy is pulled.
    pub open spec fn pull_after(
        &self,
        elapsed: Duration,
        out: Option<Duration>,
        next: &Self,
    ) -> bool {
        &&& next.max_duration() == self.max_duration()
        &&& next.start() == self.start()
        &&& if self.expired() || duration_nanos(elapsed) > duration_nanos(self.max_duration()) {
            &&& out is None
            &&& next.expired()
            &&& next.inner() == self.inner()
        } else {
            &&& !next.expired()
            &&& self.inner().pull(out, &next.inner())
        }
    }

    /// Pulls the next wait, given the time that has passed since the start.
    pub fn delay_after(&mut self, elapsed: Duration) -> (out: Option<Duration>)
        ensures
            old(self).pull_after(elapsed, out, final(self)),
    {
        if self.expired || longer_than(elapsed, self.max_duration) {
            self.expired = true;
            None
        } else {
            self.iter.delay()
        }
    }
}

impl<I: RetryStrategy> RetryStrategy for DeadlineIterator<I> {
    open spec fn pull(&self, out: Option<Duration>, next: &Self) -> bool {
        exists|elapsed: Duration| #[trigger] self.pull_after(elapsed, out, next)
    }

    fn delay(&mut self) -> (out: Option<Duration>) {
        let elapsed = self.start.elapsed();
        self.delay_after(elapsed)
    }
}

impl<I: FusedStrategy> FusedStrategy for DeadlineIterator<I> {
    open spec fn exhausted(&self) -> bool {
        self.expired() || self.inner().exhausted()
    }

    proof fn lemma_none_is_permanent(&self, out: Option<Duration>, next: &Self) {
        let elapsed = choose|elapsed: Duration| #[trigger] self.pull_after(elapsed, out, next);
        if !(self.expired() || duration_nanos(elapsed) > duration_nanos(self.max_duration())) {
            self.inner().lemma_none_is_permanent(out, &next.inner());
        }
    }
}

} // verus!
