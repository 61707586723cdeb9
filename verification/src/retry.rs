//! The retry engine: what a session does when its pending operation completes.
//!
//! A session alternates between running an attempt and waiting out a delay.
//! Both are the caller's work: the caller performs the pending operation and
//! reports how it completed, and the engine decides what comes next.

use crate::condition::{Always, Condition};
use crate::error::Error;
use crate::strategy::RetryStrategy;
use std::time::Duration;
use tokio::time::error::Error as TimerError;
use vstd::prelude::*;

verus! {

/// The operation that a session is waiting for.
#[derive(Debug, Clone, Copy)]
pub enum RetryState {
    /// An attempt is in flight.
    Running,
    /// A wait of the given length is in flight.
    Sleeping(Duration),
}

/// How the pending operation of a session completed.
#[derive(Debug)]
pub enum Completion<T, E> {
    /// The attempt returned its value or its failure.
    Attempt(Result<T, E>),
    /// The wait elapsed, or the timer failed.
    Sleep(Result<(), TimerError>),
}

/// What a session does after a completion.
#[derive(Debug)]
pub enum Progress<T, E> {
    /// The session goes on: the given operation is pending now.
    Pending(RetryState),
    /// The session has ended with the given result.
    Ready(Result<T, Error<E>>),
}

/// A retry session that consults a condition before every retry.
pub struct RetryIf<S, C> {
    strategy: S,
    condition: C,
}

impl<S: RetryStrategy, C> RetryIf<S, C> {
    /// The strategy of the session, as the pulls so far have left it.
    pub closed spec fn strategy(&self) -> S {
        self.strategy
    }

    /// The condition of the session, as the consultations so far have left it.
    pub closed spec fn condition(&self) -> C {
        self.condition
    }

    /// Neither the strategy nor the condition differs between `self` and `next`.
    pub open spec fn unchanged(&self, next: &Self) -> bool {
        next.strategy() == self.strategy() && next.condition() == self.condition()
    }

    /// Resumed with `completed`, the session `self` may answer `progress` and
    /// become `next`.
    ///
    /// A value ends the session. A failure is put to the condition; if the
    /// condition refuses, or agrees and the strategy yields `None`, the
    /// session ends with that failure, and the strategy is pulled only if the
    /// condition agreed. If the strategy yields a wait, that wait is pending.
    /// An elapsed wait makes an attempt pending; a timer failure ends the
    /// session.
    pub open spec fn resumes<T, E>(
        &self,
        completed: Completion<T, E>,
        progress: Progress<T, E>,
        next: &Self,
    ) -> bool where C: Condition<E> {
        match completed {
            Completion::Attempt(Ok(value)) => {
                progress == Progress::<T, E>::Ready(Ok(value)) && self.unchanged(next)
            },
            Completion::Attempt(Err(err)) => match progress {
                Progress::Pending(RetryState::Sleeping(wait)) => {
                    &&& self.condition().judges(&err, true, &next.condition())
                    &&& self.strategy().pull(Some(wait), &next.strategy())
                },
                Progress::Ready(Err(Error::OperationError(failure))) => {
                    &&& failure == err
                    &&& {
                        ||| {
                            &&& self.condition().judges(&err, false, &next.condition())
                            &&& next.strategy() == self.strategy()
                        }
                        ||| {
                            &&& self.condition().judges(&err, true, &next.condition())
                            &&& self.strategy().pull(None, &next.strategy())
                        }
                    }
                },
                _ => false,
            },
            Completion::Sleep(Ok(_)) => {
                progress == Progress::<T, E>::Pending(RetryState::Running) && self.unchanged(next)
            },
            Completion::Sleep(Err(timer_err)) => {
                progress == Progress::<T, E>::Ready(Err(Error::TimerError(timer_err)))
                    && self.unchanged(next)
            },
        }
    }

    /// A session with the given strategy and condition. Its first attempt is
    /// pending.
    pub fn new(strategy: S, condition: C) -> (session: RetryIf<S, C>)
        ensures
            session.strategy() == strategy,
            session.condition() == condition,
    {
        RetryIf { strategy, condition }
    }

    /// After the failure `err` that the condition let pass: pulls the
    /// strategy, and either waits as long as it asks or gives up with `err`.
    pub fn retry<E>(strategy: &mut S, err: E) -> (r: Result<RetryState, Error<E>>)
        ensures
            match r {
                Ok(RetryState::Sleeping(wait)) => old(strategy).pull(Some(wait), final(strategy)),
                Err(Error::OperationError(failure)) => {
                    failure == err && old(strategy).pull(None, final(strategy))
                },
                _ => false,
            },
    {
        match strategy.delay() {
            Some(duration) => Ok(RetryState::Sleeping(duration)),
            None => Err(Error::OperationError(err)),
        }
    }

    /// Resumes the session with the outcome of its pending operation and runs
    /// it up to the next operation that it has to wait for, or to its end.
    pub fn run<T, E>(&mut self, completed: Completion<T, E>) -> (progress: Progress<T, E>) where
        C: Condition<E>,

        ensures
            old(self).resumes(completed, progress, final(self)),
    {
        match completed {
            Completion::Attempt(Ok(ok)) => Progress::Ready(Ok(ok)),
            Completion::Attempt(Err(err)) => {
                if self.condition.should_retry(&err) {
                    match Self::retry(&mut self.strategy, err) {
                        Ok(state) => Progress::Pending(state),
                        Err(failed) => Progress::Ready(Err(failed)),
                    }
                } else {
                    Progress::Ready(Err(Error::OperationError(err)))
                }
            },
            Completion::Sleep(Ok(_)) => Progress::Pending(RetryState::Running),
            Completion::Sleep(Err(timer_err)) => Progress::Ready(Err(Error::TimerError(timer_err))),
        }
    }
}

/// A retry session without a condition: every failure is retried for as
/// long as the strategy yields a wait.
pub struct Retry<S> {
    retry_if: RetryIf<S, Always>,
}

impl<S: RetryStrategy> Retry<S> {
    /// The same session, seen as one whose condition lets every failure pass.
    pub closed spec fn session(&self) -> RetryIf<S, Always> {
        self.retry_if
    }

    /// A session with the given strategy. Its first attempt is pending.
    pub fn new(strategy: S) -> (retry: Retry<S>)
        ensures
            retry.session().strategy() == strategy,
    {
        Retry { retry_if: RetryIf::new(strategy, Always {  }) }
    }

    /// Resumes the session with the outcome of its pending operation and runs
    /// it up to the next operation that it has to wait for, or to its end.
    pub fn run<T, E>(&mut self, completed: Completion<T, E>) -> (progress: Progress<T, E>)
        ensures
            old(self).session().resumes(completed, progress, &final(self).session()),
    {
        self.retry_if.run(completed)
    }
}

} // verus!
