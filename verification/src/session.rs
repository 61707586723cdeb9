//! Whole sessions: what follows from the engine's single steps.
//!
//! A session is recorded as the sequence of its completions, the engine's
//! answer to each, and the state of the engine around each. The laws below
//! say how many attempts a session makes and how it ends.

use crate::condition::{Always, Condition};
use crate::error::Error;
use crate::retry::{Completion, Progress, RetryIf, RetryState};
use crate::strategy::{FixedInterval, LimitedRetries, NoRetry, RetryStrategy};
use std::time::Duration;
use vstd::prelude::*;

verus! {

/// The operation that is pending before completion `i`: an attempt at the
/// start, then what the engine answered last; nothing once it has ended.
pub open spec fn pending_before<T, E>(progress: Seq<Progress<T, E>>, i: int) -> Option<
    RetryState,
> {
    if i == 0 {
        Some(RetryState::Running)
    } else {
        match progress[i - 1] {
            Progress::Pending(state) => Some(state),
            Progress::Ready(_) => None,
        }
    }
}

/// `completed` is the completion of the operation `pending`.
pub open spec fn answers<T, E>(pending: Option<RetryState>, completed: Completion<T, E>) -> bool {
    match (pending, completed) {
        (Some(RetryState::Running), Completion::Attempt(_)) => true,
        (Some(RetryState::Sleeping(_)), Completion::Sleep(_)) => true,
        _ => false,
    }
}

/// A record of a session: completion `i` found the engine as `sessions[i]`,
/// was answered with `progress[i]` and left the engine as `sessions[i + 1]`.
/// Every completion is that of the operation then pending, so nothing
/// follows the end of the session.
pub open spec fn is_session<S: RetryStrategy, C: Condition<E>, T, E>(
    sessions: Seq<RetryIf<S, C>>,
    completions: Seq<Completion<T, E>>,
    progress: Seq<Progress<T, E>>,
) -> bool {
    &&& sessions.len() == completions.len() + 1
    &&& progress.len() == completions.len()
    &&& forall|i: int|
        0 <= i < completions.len() ==> (#[trigger] sessions[i]).resumes(
            completions[i],
            progress[i],
            &sessions[i + 1],
        )
    &&& forall|i: int|
        0 <= i < completions.len() ==> answers(
            pending_before(progress, i),
            #[trigger] completions[i],
        )
}

/// The number of attempts among `completions`: how often the action ran.
pub open spec fn attempts<T, E>(completions: Seq<Completion<T, E>>) -> nat
    decreases completions.len(),
{
    if completions.len() == 0 {
        0
    } else {
        attempts(completions.drop_last()) + if completions.last() is Attempt {
            1nat
        } else {
            0nat
        }
    }
}

/// Every attempt among `completions` failed.
pub open spec fn all_attempts_fail<T, E>(completions: Seq<Completion<T, E>>) -> bool {
    forall|i: int|
        0 <= i < completions.len() ==> (#[trigger] completions[i] matches Completion::Attempt(
            outcome,
        ) ==> outcome is Err)
}

/// Every wait among `completions` elapsed without a timer failure.
pub open spec fn all_waits_elapse<T, E>(completions: Seq<Completion<T, E>>) -> bool {
    forall|i: int|
        0 <= i < completions.len() ==> (#[trigger] completions[i] matches Completion::Sleep(
            outcome,
        ) ==> outcome is Ok)
}

/// The session has ended: the engine's last answer was a result.
pub open spec fn has_ended<T, E>(progress: Seq<Progress<T, E>>) -> bool {
    progress.len() > 0 && progress.last() is Ready
}

/// Counting one completion more.
proof fn lemma_attempts_take<T, E>(completions: Seq<Completion<T, E>>, i: int)
    requires
        0 <= i < completions.len(),
    ensures
        attempts(completions.take(i + 1)) == attempts(completions.take(i)) + if completions[i] is Attempt {
            1nat
        } else {
            0nat
        },
{
    assert(completions.take(i + 1).drop_last() =~= completions.take(i));
}

/// With a strategy that never retries, the action runs exactly once: a
/// failing first attempt ends the session with that failure.
pub proof fn lemma_no_retry_attempts_once<C: Condition<E>, T, E>(
    sessions: Seq<RetryIf<NoRetry, C>>,
    completions: Seq<Completion<T, E>>,
    progress: Seq<Progress<T, E>>,
)
    requires
        is_session(sessions, completions, progress),
        completions.len() > 0,
        all_attempts_fail(completions),
    ensures
        completions.len() == 1,
        attempts(completions) == 1,
        completions[0] matches Completion::Attempt(Err(failure)) && progress[0]
            == Progress::<T, E>::Ready(Err(Error::OperationError(failure))),
{
    assert(answers(pending_before(progress, 0), completions[0]));
    assert(sessions[0].resumes(completions[0], progress[0], &sessions[1]));
    if completions.len() > 1 {
        assert(answers(pending_before(progress, 1), completions[1]));
    }
    lemma_attempts_take(completions, 0);
    assert(completions.take(1) =~= completions);
    assert(completions.take(0).len() == 0);
}

/// The strategy has at least `n` waits left: whatever its next `n` pulls
/// yield, none of them is `None`.
pub open spec fn has_delays<S: RetryStrategy>(strategy: S, n: nat) -> bool
    decreases n,
{
    n > 0 ==> forall|out: Option<Duration>, next: S| #[trigger]
        strategy.pull(out, &next) ==> out is Some && has_delays(next, (n - 1) as nat)
}

/// An attempt fails as long as fewer than `failures` attempts came before it,
/// and returns `value` afterwards.
pub open spec fn fails_then_succeeds<T, E>(
    completions: Seq<Completion<T, E>>,
    failures: nat,
    value: T,
) -> bool {
    forall|i: int|
        0 <= i < completions.len() ==> (#[trigger] completions[i] matches Completion::Attempt(
            outcome,
        ) ==> if attempts(completions.take(i)) < failures {
            outcome is Err
        } else {
            outcome == Ok::<T, E>(value)
        })
}

/// A failure put to a session without a condition whose strategy still has
/// a wait to give: the session waits, and the strategy has one wait less.
proof fn lemma_failure_is_retried<S: RetryStrategy, T, E>(
    session: RetryIf<S, Always>,
    err: E,
    progress: Progress<T, E>,
    next: RetryIf<S, Always>,
    n: nat,
)
    requires
        session.resumes(Completion::<T, E>::Attempt(Err(err)), progress, &next),
        has_delays(session.strategy(), n),
        n > 0,
    ensures
        progress matches Progress::Pending(RetryState::Sleeping(_)),
        has_delays(next.strategy(), (n - 1) as nat),
{
    match progress {
        Progress::Pending(RetryState::Sleeping(wait)) => {
            assert(session.strategy().pull(Some(wait), &next.strategy()));
        },
        _ => {
            assert(session.strategy().pull(None, &next.strategy()));
        },
    }
}

/// Where a session without a condition stands after its first `i`
/// completions, if its action fails `failures` times and then succeeds:
/// `made` attempts have been made, and attempts and waits have alternated.
spec fn on_course<S: RetryStrategy, T, E>(
    session: RetryIf<S, Always>,
    pending: Option<RetryState>,
    last: Progress<T, E>,
    i: int,
    made: nat,
    failures: nat,
    value: T,
) -> bool {
    match pending {
        Some(RetryState::Running) => {
            &&& made <= failures
            &&& i == 2 * made
            &&& has_delays(session.strategy(), (failures - made) as nat)
        },
        Some(RetryState::Sleeping(_)) => {
            &&& 1 <= made <= failures
            &&& i == 2 * made - 1
            &&& has_delays(session.strategy(), (failures - made) as nat)
        },
        None => {
            &&& made == failures + 1
            &&& i == 2 * failures + 1
            &&& last == Progress::<T, E>::Ready(Ok(value))
        },
    }
}

/// The course of a session without a condition whose action fails
/// `failures` times and then succeeds.
proof fn lemma_course_until_success<S: RetryStrategy, T, E>(
    sessions: Seq<RetryIf<S, Always>>,
    completions: Seq<Completion<T, E>>,
    progress: Seq<Progress<T, E>>,
    failures: nat,
    value: T,
    i: int,
)
    requires
        is_session(sessions, completions, progress),
        has_delays(sessions[0].strategy(), failures),
        fails_then_succeeds(completions, failures, value),
        all_waits_elapse(completions),
        0 <= i <= completions.len(),
    ensures
        on_course(
            sessions[i],
            pending_before(progress, i),
            progress[i - 1],
            i,
            attempts(completions.take(i)),
            failures,
            value,
        ),
    decreases i,
{
    if i == 0 {
        assert(completions.take(0).len() == 0);
    } else {
        let h = i - 1;
        lemma_course_until_success(sessions, completions, progress, failures, value, h);
        lemma_attempts_take(completions, h);
        let made = attempts(completions.take(h));
        assert(answers(pending_before(progress, h), completions[h]));
        assert(sessions[h].resumes(completions[h], progress[h], &sessions[h + 1]));
        match completions[h] {
            Completion::Attempt(Err(err)) => {
                assert(made < failures);
                lemma_failure_is_retried(
                    sessions[h],
                    err,
                    progress[h],
                    sessions[h + 1],
                    (failures - made) as nat,
                );
            },
            Completion::Attempt(Ok(_)) => {
                assert(made >= failures);
            },
            Completion::Sleep(_) => {},
        }
    }
}

/// If the action fails three times and then succeeds, and the strategy has
/// at least three waits to give, a session without a condition runs the
/// action exactly four times and ends with the value. The same holds of any
/// number of failures in place of three.
pub proof fn lemma_succeeds_after_failures<S: RetryStrategy, T, E>(
    sessions: Seq<RetryIf<S, Always>>,
    completions: Seq<Completion<T, E>>,
    progress: Seq<Progress<T, E>>,
    failures: nat,
    value: T,
)
    requires
        is_session(sessions, completions, progress),
        has_delays(sessions[0].strategy(), failures),
        fails_then_succeeds(completions, failures, value),
        all_waits_elapse(completions),
    ensures
        completions.len() <= 2 * failures + 1,
        attempts(completions) <= failures + 1,
        has_ended(progress) ==> {
            &&& completions.len() == 2 * failures + 1
            &&& attempts(completions) == failures + 1
            &&& progress.last() == Progress::<T, E>::Ready(Ok(value))
        },
{
    let len = completions.len() as int;
    lemma_course_until_success(sessions, completions, progress, failures, value, len);
    assert(completions.take(len) =~= completions);
}

/// Where a session without a condition stands after its first `i`
/// completions, if its action always fails and its strategy is a fixed
/// interval limited to `limit` retries: `made` attempts have been made.
spec fn on_failing_course<T, E>(
    session: RetryIf<LimitedRetries<FixedInterval>, Always>,
    pending: Option<RetryState>,
    completed: Completion<T, E>,
    last: Progress<T, E>,
    i: int,
    made: nat,
    limit: nat,
) -> bool {
    &&& session.strategy().limit() == limit
    &&& match pending {
        Some(RetryState::Running) => {
            &&& made <= limit
            &&& i == 2 * made
            &&& session.strategy().used() == made
        },
        Some(RetryState::Sleeping(_)) => {
            &&& 1 <= made <= limit
            &&& i == 2 * made - 1
            &&& session.strategy().used() == made
        },
        None => {
            &&& made == limit + 1
            &&& i == 2 * limit + 1
            &&& completed matches Completion::Attempt(Err(failure))
            &&& last == Progress::<T, E>::Ready(Err(Error::OperationError(failure)))
        },
    }
}

/// The course of a session without a condition whose action always fails
/// and whose strategy is a fixed interval limited to a number of retries.
proof fn lemma_course_until_exhaustion<T, E>(
    sessions: Seq<RetryIf<LimitedRetries<FixedInterval>, Always>>,
    completions: Seq<Completion<T, E>>,
    progress: Seq<Progress<T, E>>,
    i: int,
)
    requires
        is_session(sessions, completions, progress),
        sessions[0].strategy().used() == 0,
        all_attempts_fail(completions),
        all_waits_elapse(completions),
        0 <= i <= completions.len(),
    ensures
        on_failing_course(
            sessions[i],
            pending_before(progress, i),
            completions[i - 1],
            progress[i - 1],
            i,
            attempts(completions.take(i)),
            sessions[0].strategy().limit(),
        ),
    decreases i,
{
    if i == 0 {
        assert(completions.take(0).len() == 0);
    } else {
        let h = i - 1;
        lemma_course_until_exhaustion(sessions, completions, progress, h);
        lemma_attempts_take(completions, h);
        assert(answers(pending_before(progress, h), completions[h]));
        assert(sessions[h].resumes(completions[h], progress[h], &sessions[h + 1]));
    }
}

/// With a fixed interval limited to `n` retries, a session without a
/// condition whose action always fails runs the action exactly `n + 1` times
/// and ends with the failure of the last attempt.
pub proof fn lemma_fails_after_limited_retries<T, E>(
    sessions: Seq<RetryIf<LimitedRetries<FixedInterval>, Always>>,
    completions: Seq<Completion<T, E>>,
    progress: Seq<Progress<T, E>>,
)
    requires
        is_session(sessions, completions, progress),
        sessions[0].strategy().used() == 0,
        all_attempts_fail(completions),
        all_waits_elapse(completions),
    ensures
        completions.len() <= 2 * sessions[0].strategy().limit() + 1,
        attempts(completions) <= sessions[0].strategy().limit() + 1,
        has_ended(progress) ==> {
            &&& completions.len() == 2 * sessions[0].strategy().limit() + 1
            &&& attempts(completions) == sessions[0].strategy().limit() + 1
            &&& completions.last() matches Completion::Attempt(Err(failure))
            &&& progress.last() == Progress::<T, E>::Ready(Err(Error::OperationError(failure)))
        },
{
    let len = completions.len() as int;
    lemma_course_until_exhaustion(sessions, completions, progress, len);
    assert(completions.take(len) =~= completions);
}

} // verus!
