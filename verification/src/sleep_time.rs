//! A second name for the wait between two attempts. It resolves exactly
//! as a [`SleepDuration`] of the same shape does.

use crate::duration::{duration_from_millis, duration_nanos};
use crate::sleep_duration::SleepDuration;
use std::ops::Range;
use std::time::Duration;
use vstd::prelude::*;
use vstd::std_specs::convert::FromSpecImpl;

verus! {

#[derive(Debug, Copy, Clone, PartialEq)]
pub enum SleepTime {
    /// Always this long.
    Duration(Duration),
    /// At least the first, and strictly less than the second.
    MinMax(Duration, Duration),
}

impl SleepTime {
    /// The same wait as a [`SleepDuration`].
    pub open spec fn as_sleep_duration(self) -> SleepDuration {
        match self {
            SleepTime::Duration(fixed) => SleepDuration::Duration(fixed),
            SleepTime::MinMax(min, max) => SleepDuration::MinMax(min, max),
        }
    }

    pub fn from_millis(millis: u64) -> (s: Self)
        ensures
            s matches SleepTime::Duration(d) && duration_nanos(d) == millis * 1_000_000,
    {
        SleepTime::Duration(duration_from_millis(millis))
    }

    /// The same wait, as a [`SleepDuration`].
    pub fn to_sleep_duration(self) -> (s: SleepDuration)
        ensures
            s == self.as_sleep_duration(),
    {
        match self {
            SleepTime::Duration(fixed) => SleepDuration::Duration(fixed),
            SleepTime::MinMax(min, max) => SleepDuration::MinMax(min, max),
        }
    }

    /// Resolves to a concrete time: a fixed time is returned as it is, a
    /// range gives a fresh draw on every call, and an empty range its lower
    /// end.
    pub fn into_duration(self) -> (d: Duration)
        ensures
            self.as_sleep_duration().admits(d),
            duration_nanos(d) >= self.as_sleep_duration().shortest_nanos(),
    {
        self.to_sleep_duration().into_duration()
    }
}

impl From<Duration> for SleepTime {
    fn from(duration: Duration) -> (s: Self) {
        SleepTime::Duration(duration)
    }
}

impl FromSpecImpl<Duration> for SleepTime {
    open spec fn obeys_from_spec() -> bool {
        true
    }

    open spec fn from_spec(duration: Duration) -> Self {
        SleepTime::Duration(duration)
    }
}

impl From<(Duration, Duration)> for SleepTime {
    fn from(min_max: (Duration, Duration)) -> (s: Self) {
        SleepTime::MinMax(min_max.0, min_max.1)
    }
}

impl FromSpecImpl<(Duration, Duration)> for SleepTime {
    open spec fn obeys_from_spec() -> bool {
        true
    }

    open spec fn from_spec(min_max: (Duration, Duration)) -> Self {
        SleepTime::MinMax(min_max.0, min_max.1)
    }
}

impl From<Range<Duration>> for SleepTime {
    fn from(min_max: Range<Duration>) -> (s: Self) {
        SleepTime::MinMax(min_max.start, min_max.end)
    }
}

impl FromSpecImpl<Range<Duration>> for SleepTime {
    open spec fn obeys_from_spec() -> bool {
        true
    }

    open spec fn from_spec(min_max: Range<Duration>) -> Self {
        SleepTime::MinMax(min_max.start, min_max.end)
    }
}

} // verus!
