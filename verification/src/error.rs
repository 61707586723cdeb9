//! The failure of a retry session.

use tokio::time::error::Error as TimerError;
use vstd::prelude::*;
use vstd::std_specs::cmp::PartialEqSpec;

verus! {

/// The error of tokio's timer. The library only carries it from the timer to
/// the caller and never looks inside.
#[verifier::external_type_specification]
#[verifier::external_body]
pub struct ExTimerError(TimerError);

/// Represents the errors possible during the execution of a retry session.
#[derive(Debug)]
pub enum Error<E> {
    /// The failure of the last attempt, as the action returned it.
    OperationError(E),
    /// The timer failed while the session waited between two attempts.
    TimerError(TimerError),
}

impl<E: PartialEq> PartialEq for Error<E> {
    /// Two errors are equal when both are operation errors with equal
    /// failures. A timer error equals nothing, not even itself.
    fn eq(&self, other: &Error<E>) -> (r: bool)
        ensures
            (self is TimerError || other is TimerError) ==> !r,
    {
        match (self, other) {
            (Error::OperationError(left_err), Error::OperationError(right_err)) => {
                left_err.eq(right_err)
            },
            _ => false,
        }
    }
}

impl<E: PartialEq> vstd::std_specs::cmp::PartialEqSpecImpl for Error<E> {
    open spec fn obeys_eq_spec() -> bool {
        E::obeys_eq_spec()
    }

    open spec fn eq_spec(&self, other: &Error<E>) -> bool {
        match (self, other) {
            (Error::OperationError(left_err), Error::OperationError(right_err)) => {
                left_err.eq_spec(right_err)
            },
            _ => false,
        }
    }
}

} // verus!
