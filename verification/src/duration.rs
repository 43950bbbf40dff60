//! The length of a `std::time::Duration` as contracts see it.

use std::time::Duration;
use vstd::prelude::*;

verus! {

/// The whole length of a duration, in nanoseconds.
pub uninterp spec fn duration_nanos(d: Duration) -> nat;

/// Calls `Duration::from_millis`: the result lasts `millis` milliseconds,
/// that is a million nanoseconds for each of them.
#[verifier::external_body]
pub(crate) fn duration_from_millis(millis: u64) -> (d: Duration)
    ensures
        duration_nanos(d) == millis * 1_000_000,
{
    Duration::from_millis(millis)
}

/// Calls `<` of `Duration`: whether the first lasts strictly less long than
/// the second.
#[verifier::external_body]
pub(crate) fn duration_is_shorter(a: Duration, b: Duration) -> (shorter: bool)
    ensures
        shorter == (duration_nanos(a) < duration_nanos(b)),
{
    a < b
}

/// Calls `gen_range` of rand's thread-local generator on `min..max`: the
/// result is drawn from the half-open range, so it is at least `min` and
/// strictly shorter than `max`. The draw panics on an empty range, which the
/// precondition leaves out.
#[verifier::external_body]
pub(crate) fn duration_between(min: Duration, max: Duration) -> (d: Duration)
    requires
        duration_nanos(min) < duration_nanos(max),
    ensures
        duration_nanos(min) <= duration_nanos(d) < duration_nanos(max),
{
    rand::Rng::gen_range(&mut rand::thread_rng(), min..max)
}

} // verus!
