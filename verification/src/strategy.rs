//! Retry strategies: lazy sequences of waits between attempts.
//!
//! A strategy is pulled once after every failed attempt. `Some(d)` asks for a
//! wait of `d` before the next attempt, `None` means "give up". The protocol
//! is that of [`RetryStrategy`]; the decorators wrap a strategy and are
//! strategies themselves.

use std::time::Duration;
use vstd::prelude::*;

pub mod deadline;
pub mod exponential_backoff;
pub mod fibonacci_backoff;
pub mod fixed_interval;
pub mod from_iterator;
pub mod jittered;
pub mod limited_delay;
pub mod limited_retries;
pub mod no_retry;

pub use deadline::{Deadline, DeadlineIterator};
pub use exponential_backoff::ExponentialBackoff;
pub use fibonacci_backoff::FibonacciBackoff;
pub use fixed_interval::FixedInterval;
pub use from_iterator::FromIterator;
pub use jittered::{jitter, jittered_delay, Jittered};
pub use limited_delay::{limit_delay, LimitedDelay};
pub use limited_retries::{limit_retries, LimitedRetries};
pub use no_retry::NoRetry;

verus! {

/// A stateful source of waits.
///
/// The behaviour of a strategy is a transition relation, [`pull`]: which
/// yields and successor states one pull may produce. Strategies that draw on
/// nothing outside themselves relate every state to exactly one yield and
/// successor; those that read a clock or a random source relate it to several.
///
/// [`pull`]: RetryStrategy::pull
pub trait RetryStrategy: Sized {
    /// One pull from `self` may yield `out` and leave the strategy as `next`.
    ///
    /// Unless an implementation says more, every pull is possible.
    open spec fn pull(&self, out: Option<Duration>, next: &Self) -> bool {
        true
    }

    /// Pulls the next wait.
    fn delay(&mut self) -> (out: Option<Duration>)
        ensures
            old(self).pull(out, final(self)),
    ;
}

/// A strategy that is known to give up for good: once it has yielded `None`,
/// it yields `None` on every later pull.
///
/// Every strategy of this library is fused, and so is every decorator around
/// a fused strategy.
pub trait FusedStrategy: RetryStrategy {
    /// The strategy has given up: every further pull yields `None`.
    spec fn exhausted(&self) -> bool;

    /// `None` is permanent: an exhausted strategy yields `None` and stays
    /// exhausted, and a strategy that has yielded `None` is exhausted.
    proof fn lemma_none_is_permanent(&self, out: Option<Duration>, next: &Self)
        requires
            self.pull(out, next),
        ensures
            self.exhausted() ==> out is None,
            out is None ==> next.exhausted(),
    ;
}

/// Produces the strategies of successive sessions.
///
/// A strategy carries the state of one session, so every session needs one
/// of its own.
pub trait StrategyFactory {
    /// The strategies that the factory produces.
    type Strategy: RetryStrategy;

    /// The factory may produce `strategy`.
    ///
    /// Unless an implementation says more, it may produce any strategy.
    open spec fn produces(&self, strategy: &Self::Strategy) -> bool {
        true
    }

    /// A strategy for a new session.
    fn get_strategy(&self) -> (strategy: Self::Strategy)
        ensures
            self.produces(&strategy),
    ;
}

/// A strategy that can be copied is the factory of its copies: every session
/// starts from the state in which the factory was made.
impl<S: RetryStrategy + Copy> StrategyFactory for S {
    type Strategy = S;

    open spec fn produces(&self, strategy: &S) -> bool {
        *strategy == *self
    }

    fn get_strategy(&self) -> (strategy: S) {
        *self
    }
}

/// `states` and `outs` record successive pulls from one strategy: pull `i`
/// found it as `states[i]`, yielded `outs[i]` and left it as `states[i + 1]`.
pub open spec fn is_run<S: RetryStrategy>(states: Seq<S>, outs: Seq<Option<Duration>>) -> bool {
    &&& states.len() == outs.len() + 1
    &&& forall|i: int| 0 <= i < outs.len() ==> (#[trigger] states[i]).pull(outs[i], &states[i + 1])
}

/// An exhausted strategy stays exhausted through every later pull.
pub proof fn lemma_stays_exhausted<S: FusedStrategy>(
    states: Seq<S>,
    outs: Seq<Option<Duration>>,
    i: int,
    j: int,
)
    requires
        is_run(states, outs),
        0 <= i <= j <= outs.len(),
        states[i].exhausted(),
    ensures
        states[j].exhausted(),
    decreases j - i,
{
    if i < j {
        lemma_stays_exhausted(states, outs, i, j - 1);
        assert(states[j - 1].pull(outs[j - 1], &states[j - 1 + 1]));
        states[j - 1].lemma_none_is_permanent(outs[j - 1], &states[j]);
    }
}

/// "Some forever until None forever": once a fused strategy has yielded
/// `None`, it yields `None` on every later pull.
pub proof fn lemma_none_forever<S: FusedStrategy>(
    states: Seq<S>,
    outs: Seq<Option<Duration>>,
    i: int,
    j: int,
)
    requires
        is_run(states, outs),
        0 <= i <= j < outs.len(),
        outs[i] is None,
    ensures
        outs[j] is None,
{
    if i < j {
        assert(states[i].pull(outs[i], &states[i + 1]));
        states[i].lemma_none_is_permanent(outs[i], &states[i + 1]);
        lemma_stays_exhausted(states, outs, i + 1, j);
        assert(states[j].pull(outs[j], &states[j + 1]));
        states[j].lemma_none_is_permanent(outs[j], &states[j + 1]);
    }
}

} // verus!
