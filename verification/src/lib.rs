//! Composable units of work: a task that can be invoked again and again, a
//! retry policy with waits between the attempts, and a shared liveness
//! latch for work that repeats until something fails.
//!
//! Waiting and running other people's futures is left to the caller: a run
//! of the retry loop and the loop of the latch are driven step by step, the
//! caller doing what each step names and handing back what came of it.

pub mod duration;
pub mod fn_task;
pub mod liveness;
pub mod retry;
pub mod retry_task;
pub mod sleep_duration;
pub mod sleep_time;
pub mod success_tracking_task;
pub mod task;
pub mod task_ext;

pub use duration::duration_nanos;
pub use fn_task::FnTask;
pub use liveness::{LoopStep, RunError};
pub use retry::Retry;
pub use retry_task::{RetryRun, RetryStep, RetryTask};
pub use sleep_duration::SleepDuration;
pub use sleep_time::SleepTime;
pub use success_tracking_task::SuccessTrackingTask;
pub use task::Task;
pub use task_ext::TaskExt;
