//! Retry as a method of every fallible task.

use crate::retry::Retry;
use crate::retry_task::RetryTask;
use crate::task::Task;
use vstd::prelude::*;

verus! {

pub trait TaskExt: Task + Sized {
    /// Wraps the task under the given policy. Nothing is invoked.
    fn with_retry(self, retries: Retry) -> (wrapped: RetryTask<Self>)
        ensures
            wrapped.task() == self,
            wrapped.policy() == retries,
    ;
}

impl<T, O, E> TaskExt for T where T: Task<Output = Result<O, E>> {
    fn with_retry(self, retries: Retry) -> (wrapped: RetryTask<Self>) {
        RetryTask::new(self, retries)
    }
}

} // verus!
