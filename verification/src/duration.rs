//! What the verifier is told about `std::time::Duration`.
//!
//! `Duration` is opaque to the verifier, so its length is given a name,
//! [`duration_nanos`], and the few `std` functions that the strategies call
//! are specified over that name. None of these statements is proved here:
//! each restates what the documentation of `std` promises.

use std::time::Duration;
use vstd::prelude::*;

verus! {

/// The length of `d` in whole nanoseconds.
pub uninterp spec fn duration_nanos(d: Duration) -> nat;

/// `d` lasts exactly `millis` milliseconds.
pub open spec fn is_millis(d: Duration, millis: nat) -> bool {
    duration_nanos(d) == millis * 1_000_000
}

/// The shorter of two durations; `a` when they are equally long.
pub open spec fn shorter(a: Duration, b: Duration) -> Duration {
    if duration_nanos(a) <= duration_nanos(b) {
        a
    } else {
        b
    }
}

/// `Duration::from_millis`: the result lasts `millis` milliseconds.
pub assume_specification[ Duration::from_millis ](millis: u64) -> (d: Duration)
    ensures
        duration_nanos(d) == millis * 1_000_000,
;

/// `Duration::new`: whole seconds plus additional nanoseconds. `std` panics
/// when the carry out of `nanos` overflows the seconds, which `requires`
/// rules out.
pub assume_specification[ Duration::new ](secs: u64, nanos: u32) -> (d: Duration)
    requires
        secs + nanos / 1_000_000_000 <= u64::MAX,
    ensures
        duration_nanos(d) == secs * 1_000_000_000 + nanos,
;

/// `Duration::as_secs`: the whole seconds contained in the duration.
pub assume_specification[ Duration::as_secs ](d: &Duration) -> (secs: u64)
    ensures
        secs == duration_nanos(*d) / 1_000_000_000,
;

/// `Duration::subsec_nanos`: the part below one second, in nanoseconds.
pub assume_specification[ Duration::subsec_nanos ](d: &Duration) -> (nanos: u32)
    ensures
        nanos == duration_nanos(*d) % 1_000_000_000,
;

/// `a > b` on `Duration`, which orders durations by their length.
#[verifier::external_body]
pub(crate) fn longer_than(a: Duration, b: Duration) -> (r: bool)
    ensures
        r == (duration_nanos(a) > duration_nanos(b)),
{
    a > b
}

/// The shorter of `a` and `b`.
pub fn min_duration(a: Duration, b: Duration) -> (r: Duration)
    ensures
        r == shorter(a, b),
{
    if longer_than(a, b) {
        b
    } else {
        a
    }
}

} // verus!
