//! How long to wait between two attempts: a fixed time, or a time drawn anew
//! from a range each time it is needed.

use crate::duration::{duration_between, duration_from_millis, duration_is_shorter, duration_nanos};
use std::ops::Range;
use std::time::Duration;
use vstd::prelude::*;
use vstd::std_specs::convert::FromSpecImpl;

verus! {

#[derive(Debug, Copy, Clone, PartialEq)]
pub enum SleepDuration {
    /// Always this long.
    Duration(Duration),
    /// At least the first, and strictly less than the second.
    MinMax(Duration, Duration),
}

impl SleepDuration {
    /// A range is proper when it is not empty: its lower end is strictly
    /// shorter than its upper end. A fixed time is always proper.
    pub open spec fn is_proper(self) -> bool {
        match self {
            SleepDuration::Duration(_) => true,
            SleepDuration::MinMax(min, max) => duration_nanos(min) < duration_nanos(max),
        }
    }

    /// Whether `d` is a time that this wait may resolve to. A range
    /// that is empty resolves to its lower end.
    pub open spec fn admits(self, d: Duration) -> bool {
        match self {
            SleepDuration::Duration(fixed) => d == fixed,
            SleepDuration::MinMax(min, max) => if duration_nanos(min) < duration_nanos(max) {
                duration_nanos(min) <= duration_nanos(d) < duration_nanos(max)
            } else {
                d == min
            },
        }
    }

    /// The shortest time, in nanoseconds, that a resolution can last.
    pub open spec fn shortest_nanos(self) -> nat {
        match self {
            SleepDuration::Duration(fixed) => duration_nanos(fixed),
            SleepDuration::MinMax(min, _) => duration_nanos(min),
        }
    }

    pub fn from_duration(duration: Duration) -> (s: Self)
        ensures
            s == SleepDuration::Duration(duration),
    {
        SleepDuration::Duration(duration)
    }

    pub fn from_min_max_durations(min_duration: Duration, max_duration: Duration) -> (s: Self)
        ensures
            s == SleepDuration::MinMax(min_duration, max_duration),
    {
        SleepDuration::MinMax(min_duration, max_duration)
    }

    pub fn from_millis(millis: u64) -> (s: Self)
        ensures
            s matches SleepDuration::Duration(d) && duration_nanos(d) == millis * 1_000_000,
    {
        SleepDuration::Duration(duration_from_millis(millis))
    }

    pub fn from_min_max_millis(min_millis: u64, max_millis: u64) -> (s: Self)
        ensures
            s matches SleepDuration::MinMax(min, max) && duration_nanos(min) == min_millis
                * 1_000_000 && duration_nanos(max) == max_millis * 1_000_000,
            s.is_proper() <==> min_millis < max_millis,
    {
        SleepDuration::MinMax(duration_from_millis(min_millis), duration_from_millis(max_millis))
    }

    /// Resolves to a concrete time: a fixed time is returned as it is, a
    /// range gives a fresh draw on every call.
    pub fn into_duration(self) -> (d: Duration)
        ensures
            self.admits(d),
            duration_nanos(d) >= self.shortest_nanos(),
    {
        match self {
            SleepDuration::Duration(fixed) => fixed,
            SleepDuration::MinMax(min, max) => {
                if duration_is_shorter(min, max) {
                    duration_between(min, max)
                } else {
                    min
                }
            },
        }
    }
}

impl From<Duration> for SleepDuration {
    fn from(duration: Duration) -> (s: Self) {
        SleepDuration::Duration(duration)
    }
}

impl FromSpecImpl<Duration> for SleepDuration {
    open spec fn obeys_from_spec() -> bool {
        true
    }

    open spec fn from_spec(duration: Duration) -> Self {
        SleepDuration::Duration(duration)
    }
}

impl From<(Duration, Duration)> for SleepDuration {
    fn from(min_max: (Duration, Duration)) -> (s: Self) {
        SleepDuration::MinMax(min_max.0, min_max.1)
    }
}

impl FromSpecImpl<(Duration, Duration)> for SleepDuration {
    open spec fn obeys_from_spec() -> bool {
        true
    }

    open spec fn from_spec(min_max: (Duration, Duration)) -> Self {
        SleepDuration::MinMax(min_max.0, min_max.1)
    }
}

impl From<Range<Duration>> for SleepDuration {
    fn from(min_max: Range<Duration>) -> (s: Self) {
        SleepDuration::MinMax(min_max.start, min_max.end)
    }
}

impl FromSpecImpl<Range<Duration>> for SleepDuration {
    open spec fn obeys_from_spec() -> bool {
        true
    }

    open spec fn from_spec(min_max: Range<Duration>) -> Self {
        SleepDuration::MinMax(min_max.start, min_max.end)
    }
}

} // verus!
