//! The retry policy: how many attempts to make, and how long to wait
//! between two of them.

use crate::duration::duration_nanos;
use crate::sleep_duration::SleepDuration;
use vstd::prelude::*;

verus! {

/// The number of attempts of a policy that was not told otherwise.
pub const DEFAULT_NUM_RETRIES: u32 = 3;

/// The wait, in milliseconds, of a policy that was not told otherwise.
pub const DEFAULT_SLEEP_MILLIS: u64 = 10_000;

/// An immutable retry policy. It always allows at least one attempt.
#[derive(Copy, Clone, Debug)]
pub struct Retry {
    num_retries: u32,
    sleep_duration: SleepDuration,
}

impl Retry {
    #[verifier::type_invariant]
    spec fn allows_an_attempt(self) -> bool {
        self.num_retries >= 1
    }

    /// The most attempts that a run under this policy makes.
    pub closed spec fn max_attempts(self) -> nat {
        self.num_retries as nat
    }

    /// The wait between two attempts, before it is resolved.
    pub closed spec fn sleep(self) -> SleepDuration {
        self.sleep_duration
    }

    /// Three attempts, ten seconds apart.
    pub fn new() -> (policy: Self)
        ensures
            policy.max_attempts() == DEFAULT_NUM_RETRIES,
            policy.sleep() matches SleepDuration::Duration(d) && duration_nanos(d)
                == DEFAULT_SLEEP_MILLIS * 1_000_000,
    {
        Retry {
            num_retries: DEFAULT_NUM_RETRIES,
            sleep_duration: SleepDuration::from_millis(DEFAULT_SLEEP_MILLIS),
        }
    }

    pub fn retries(self) -> (n: u32)
        ensures
            n == self.max_attempts(),
            n >= 1,
    {
        proof {
            use_type_invariant(&self);
        }
        self.num_retries
    }

    /// The same policy with another number of attempts. A policy cannot
    /// allow no attempt at all: zero is raised to one.
    pub fn set_retries(self, num_retries: u32) -> (policy: Self)
        ensures
            policy.max_attempts() == (if num_retries == 0 { 1 } else { num_retries }),
            policy.sleep() == self.sleep(),
    {
        let at_least_one: u32 = if num_retries == 0 { 1 } else { num_retries };
        Retry { num_retries: at_least_one, sleep_duration: self.sleep_duration }
    }

    pub fn sleep_duration(self) -> (sleep: SleepDuration)
        ensures
            sleep == self.sleep(),
    {
        self.sleep_duration
    }

    /// The same policy with another wait between attempts.
    pub fn set_sleep_duration(self, sleep_duration: SleepDuration) -> (policy: Self)
        ensures
            policy.max_attempts() == self.max_attempts(),
            policy.sleep() == sleep_duration,
    {
        proof {
            use_type_invariant(&self);
        }
        Retry { num_retries: self.num_retries, sleep_duration }
    }
}

} // verus!
