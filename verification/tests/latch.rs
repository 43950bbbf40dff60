use std::cell::Cell;

use task_retry::liveness::conclude;
use task_retry::liveness::continue_loop;
use task_retry::liveness::enter_loop;
use task_retry::liveness::gate;
use task_retry::FnTask;
use task_retry::LoopStep;
use task_retry::RunError;
use task_retry::SuccessTrackingTask;
use task_retry::Task;

/// Drives the loop over a repeated task: invokes as long as it is told to.
fn while_alive<T, E>(latch: &SuccessTrackingTask, mut task: T) -> Result<(), RunError<E>>
where
    T: Task<Output = Result<(), E>>,
{
    let mut step = latch.enter_while_alive();
    loop {
        match step {
            LoopStep::Return(result) => return result,
            LoopStep::Invoke => step = latch.after_call(task.call()),
        }
    }
}

#[test]
fn it_should_be_alive_immediately() {
    let task = SuccessTrackingTask::new();

    assert_eq!(task.is_alive(), true);
}

#[test]
fn it_should_be_alive_after_ok_run() {
    let task = SuccessTrackingTask::new();
    let _ = task.run(|| Ok(()) as anyhow::Result<()>);

    assert_eq!(task.is_alive(), true);
}

#[test]
fn it_should_not_be_alive_after_err_run() {
    let task = SuccessTrackingTask::new();
    let _ = task.run(|| Err(anyhow::Error::msg("fail")) as anyhow::Result<()>);

    assert_eq!(task.is_alive(), false);
}

#[test]
fn it_should_not_be_alive_after_calling_abort() {
    let task = SuccessTrackingTask::new();
    task.abort();

    assert_eq!(task.is_alive(), false);
}

#[test]
fn it_should_run_immediately() {
    let num_calls = Cell::new(0u32);
    let task = SuccessTrackingTask::new();

    let result = task.run(|| {
        num_calls.set(num_calls.get() + 1);

        Ok(()) as anyhow::Result<()>
    });

    assert!(result.is_ok());
    assert_eq!(num_calls.get(), 1);
}

#[test]
fn it_should_not_run_if_aborted() {
    let num_calls = Cell::new(0u32);
    let task = SuccessTrackingTask::new();

    task.abort();
    let result = task.run(|| {
        num_calls.set(num_calls.get() + 1);

        Ok(()) as anyhow::Result<()>
    });

    assert!(result.is_err());
    assert!(matches!(result, Err(RunError::AlreadyDead)));
    assert_eq!(num_calls.get(), 0);
}

#[test]
fn it_should_abort_clones() {
    let num_calls = Cell::new(0u32);
    let task = SuccessTrackingTask::new();
    let clone = task.clone();

    task.abort();
    let result = clone.run(|| {
        num_calls.set(num_calls.get() + 1);

        Ok(()) as anyhow::Result<()>
    });

    assert!(result.is_err());
    assert_eq!(num_calls.get(), 0);
}

#[test]
fn it_can_be_used_in_loop() {
    let num_calls = Cell::new(0u32);
    let task = SuccessTrackingTask::new();

    while task.is_alive() {
        let _ = task.run(|| {
            num_calls.set(num_calls.get() + 1);

            if num_calls.get() >= 3 {
                return Err(anyhow::Error::msg("Quit after 3 runs"));
            }

            Ok(()) as anyhow::Result<()>
        });
    }

    assert_eq!(num_calls.get(), 3);
}

#[test]
fn success_tracking_task_it_should_abort_clones() {
    let num_calls = Cell::new(0u32);
    let task = SuccessTrackingTask::new();
    let clone = task.clone();

    task.abort();
    let result = while_alive(
        &clone,
        FnTask::new(|| {
            num_calls.set(num_calls.get() + 1);

            Ok(()) as anyhow::Result<()>
        }),
    );

    assert!(result.is_err());
    assert!(matches!(result, Err(RunError::AlreadyDead)));
    assert_eq!(num_calls.get(), 0);
}

#[test]
fn it_runs_loop_whilst_alive() {
    let num_calls = Cell::new(0u32);
    let task = SuccessTrackingTask::new();

    let result = while_alive(
        &task,
        FnTask::new(|| {
            num_calls.set(num_calls.get() + 1);
            if num_calls.get() >= 3 {
                return Err(anyhow::Error::msg("Quit after 3 runs"));
            }

            Ok(()) as anyhow::Result<()>
        }),
    );

    assert_eq!(num_calls.get(), 3);
    assert!(result.is_err());
    assert_eq!(task.is_alive(), false);
}

#[test]
fn loop_returns_the_error_of_the_fifth_call() {
    let num_calls = Cell::new(0u32);
    let latch = SuccessTrackingTask::new();

    let result = while_alive(
        &latch,
        FnTask::new(|| {
            num_calls.set(num_calls.get() + 1);
            if num_calls.get() == 5 {
                Err("fifth")
            } else {
                Ok(())
            }
        }),
    );

    assert_eq!(result, Err(RunError::Failed("fifth")));
    assert_eq!(num_calls.get(), 5);
    assert!(!latch.is_alive());
}

#[test]
fn loop_leaves_cleanly_when_ended_from_outside() {
    let num_calls = Cell::new(0u32);
    let latch = SuccessTrackingTask::new();
    let other = latch.clone();

    let result = while_alive(
        &latch,
        FnTask::new(|| {
            num_calls.set(num_calls.get() + 1);
            if num_calls.get() == 2 {
                other.abort();
            }
            Ok(()) as Result<(), &str>
        }),
    );

    assert_eq!(result, Ok(()));
    assert_eq!(num_calls.get(), 2);
    assert!(!latch.is_alive());
}

#[test]
fn every_clone_sees_the_same_flag() {
    let latch = SuccessTrackingTask::new();
    let before = latch.clone();
    assert!(latch.is_alive());
    assert!(before.is_alive());

    before.abort();
    let after = latch.clone();
    assert!(!latch.is_alive());
    assert!(!before.is_alive());
    assert!(!after.is_alive());

    before.abort();
    assert!(!latch.is_alive());
}

#[test]
fn latches_made_apart_do_not_share() {
    let one = SuccessTrackingTask::new();
    let other = SuccessTrackingTask::new();
    one.abort();
    assert!(!one.is_alive());
    assert!(other.is_alive());
}

#[test]
fn discarding_a_holder_ends_the_latch() {
    let latch = SuccessTrackingTask::new();
    {
        let _short_lived = latch.clone();
        assert!(latch.is_alive());
    }
    assert!(!latch.is_alive());
}

#[test]
fn failure_is_handed_on_and_value_is_kept() {
    let latch = SuccessTrackingTask::new();
    assert_eq!(latch.run(|| Ok::<u8, &str>(41)), Ok(41));
    assert!(latch.is_alive());
    assert_eq!(
        latch.run(|| Err::<u8, &str>("broke")),
        Err(RunError::Failed("broke"))
    );
    assert!(!latch.is_alive());
    assert_eq!(
        latch.run(|| Ok::<u8, &str>(42)),
        Err(RunError::AlreadyDead)
    );
}

#[test]
fn check_and_settle_split_a_guarded_operation() {
    let latch = SuccessTrackingTask::new();
    assert_eq!(latch.check::<&str>(), Ok(()));
    assert_eq!(latch.settle(Ok::<u8, &str>(3)), Ok(3));
    assert!(latch.is_alive());

    assert_eq!(latch.check::<&str>(), Ok(()));
    assert_eq!(
        latch.settle(Err::<u8, &str>("late")),
        Err(RunError::Failed("late"))
    );
    assert!(!latch.is_alive());
    assert_eq!(latch.check::<&str>(), Err(RunError::AlreadyDead));
}

#[test]
fn rules_of_the_latch_on_plain_values() {
    assert_eq!(gate::<u8>(true), Ok(()));
    assert_eq!(gate::<u8>(false), Err(RunError::AlreadyDead));

    assert_eq!(conclude(Ok::<u8, u8>(1)), Ok(1));
    assert_eq!(conclude(Err::<u8, u8>(2)), Err(RunError::Failed(2)));

    assert_eq!(enter_loop::<u8>(true), LoopStep::Invoke);
    assert_eq!(
        enter_loop::<u8>(false),
        LoopStep::Return(Err(RunError::AlreadyDead))
    );

    assert_eq!(continue_loop(Ok(()) as Result<(), u8>, true), LoopStep::Invoke);
    assert_eq!(
        continue_loop(Ok(()) as Result<(), u8>, false),
        LoopStep::Return(Ok(()))
    );
    assert_eq!(
        continue_loop(Err(9u8), true),
        LoopStep::Return(Err(RunError::Failed(9)))
    );
    assert_eq!(
        continue_loop(Err(9u8), false),
        LoopStep::Return(Err(RunError::Failed(9)))
    );
}

#[test]
fn error_reports_are_off_until_asked_for() {
    let mut latch = SuccessTrackingTask::new();
    assert!(!latch.debug_print_err());
    latch.set_debug_print_err();
    assert!(latch.debug_print_err());
    assert!(latch.is_alive());
}
