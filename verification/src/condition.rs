//! Conditions: which failures are worth another attempt.

use vstd::prelude::*;

verus! {

/// Specifies under which conditions a retry is attempted.
///
/// A condition is consulted with mutable access, so it may keep a budget or
/// a count. Its behaviour is the relation [`judges`]: which verdicts and
/// successor states one consultation may produce.
///
/// [`judges`]: Condition::judges
pub trait Condition<E>: Sized {
    /// Asked about `error`, `self` may answer `retry` and become `next`.
    ///
    /// Unless an implementation says more, every answer is possible.
    open spec fn judges(&self, error: &E, retry: bool, next: &Self) -> bool {
        true
    }

    /// Whether another attempt should follow the failure `error`.
    fn should_retry(&mut self, error: &E) -> (retry: bool)
        ensures
            old(self).judges(error, retry, final(self)),
    ;
}

/// The condition of a session that was given none: every failure is retried.
#[derive(Debug, Clone, Copy)]
pub struct Always {}

impl<E> Condition<E> for Always {
    open spec fn judges(&self, error: &E, retry: bool, next: &Self) -> bool {
        retry
    }

    fn should_retry(&mut self, error: &E) -> (retry: bool) {
        true
    }
}

} // verus!
