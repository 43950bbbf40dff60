//! A run of the retry loop, one recorded outcome at a time.

use crate::duration::duration_nanos;
use crate::retry::Retry;
use crate::sleep_duration::SleepDuration;
use crate::task::Task;
use std::time::Duration;
use vstd::prelude::*;

verus! {

/// Whether the outcome of an invocation ends the run, when `made`
/// invocations came before it: a success always does, a failure does once
/// it was the last attempt that `max` allows.
pub open spec fn is_final<O, E>(max: nat, made: nat, outcome: Result<O, E>) -> bool {
    outcome is Ok || made + 1 >= max
}

/// How many invocations a run has made, from the one numbered `made` on,
/// when the invocation numbered `i` gives `outcomes[i]`.
pub open spec fn calls_from<O, E>(max: nat, outcomes: Seq<Result<O, E>>, made: nat) -> nat
    decreases outcomes.len() - made,
{
    if made >= outcomes.len() {
        made
    } else if is_final(max, made, outcomes[made as int]) {
        made + 1
    } else {
        calls_from(max, outcomes, made + 1)
    }
}

/// How many times a run under `max` attempts invokes a task whose
/// invocations give `outcomes`, in this order.
pub open spec fn run_calls<O, E>(max: nat, outcomes: Seq<Result<O, E>>) -> nat {
    calls_from(max, outcomes, 0)
}

/// What the run returns: the outcome of its last invocation, if that one
/// ended it. `None` while the run still waits for a further outcome.
pub open spec fn run_result<O, E>(max: nat, outcomes: Seq<Result<O, E>>) -> Option<Result<O, E>> {
    let calls = run_calls(max, outcomes);
    if 1 <= calls <= outcomes.len() && is_final(max, (calls - 1) as nat, outcomes[calls - 1]) {
        Some(outcomes[calls - 1])
    } else {
        None
    }
}

/// How many waits the run makes: one after each invocation that did not
/// end it.
pub open spec fn run_waits<O, E>(max: nat, outcomes: Seq<Result<O, E>>) -> nat {
    let calls = run_calls(max, outcomes);
    if run_result(max, outcomes) is Some {
        (calls - 1) as nat
    } else {
        calls
    }
}

/// The time that a sequence of waits takes in all, in nanoseconds.
pub open spec fn total_nanos(waits: Seq<Duration>) -> nat
    decreases waits.len(),
{
    if waits.len() == 0 {
        0
    } else {
        total_nanos(waits.drop_last()) + duration_nanos(waits.last())
    }
}

/// A run in progress: every invocation so far has failed, and at least one
/// more is allowed.
pub struct RetryRun<O, E> {
    policy: Retry,
    max: u32,
    made: u32,
    seen: Ghost<Seq<Result<O, E>>>,
}

/// What the driver of a run does after an invocation.
pub enum RetryStep<O, E> {
    /// Wait this long, invoke the task again, and record its outcome in the
    /// run that comes with it.
    Wait(Duration, RetryRun<O, E>),
    /// The run is over, with this result.
    Done(Result<O, E>),
}

impl<O, E> RetryRun<O, E> {
    #[verifier::type_invariant]
    spec fn in_progress(self) -> bool {
        &&& self.max == self.policy.max_attempts()
        &&& self.made < self.max
        &&& self.seen@.len() == self.made
        &&& forall|i: int| 0 <= i < self.seen@.len() ==> (#[trigger] self.seen@[i]) is Err
    }

    /// The policy that the run follows.
    pub closed spec fn policy(self) -> Retry {
        self.policy
    }

    /// The outcomes recorded so far, oldest first.
    pub closed spec fn outcomes(self) -> Seq<Result<O, E>> {
        self.seen@
    }

    /// How many invocations were recorded so far.
    pub fn attempts_made(&self) -> (made: u32)
        ensures
            made == self.outcomes().len(),
            made < self.policy().max_attempts(),
    {
        proof {
            use_type_invariant(self);
        }
        self.made
    }

    /// Whether recording `outcome` in this run may give `step`. A success
    /// ends the run at once. A failure ends it when it was the last attempt
    /// allowed; before that the run goes on after a wait that the policy
    /// admits. What ends the run is what the run returns, and the counts of
    /// the whole run are those of the outcomes recorded.
    pub open spec fn steps_to(self, outcome: Result<O, E>, step: RetryStep<O, E>) -> bool {
        let max = self.policy().max_attempts();
        let recorded = self.outcomes().push(outcome);
        match step {
            RetryStep::Done(result) => {
                &&& is_final(max, self.outcomes().len(), outcome)
                &&& result == outcome
                &&& run_result(max, recorded) == Some(result)
                &&& run_calls(max, recorded) == recorded.len()
                &&& run_waits(max, recorded) == recorded.len() - 1
            },
            RetryStep::Wait(wait, next) => {
                &&& !is_final(max, self.outcomes().len(), outcome)
                &&& self.policy().sleep().admits(wait)
                &&& next.policy() == self.policy()
                &&& next.outcomes() == recorded
            },
        }
    }

    /// Records the outcome of one invocation and says what comes next. No
    /// wait follows the invocation that ends the run.
    pub fn record(self, outcome: Result<O, E>) -> (step: RetryStep<O, E>)
        ensures
            self.steps_to(outcome, step),
    {
        proof {
            use_type_invariant(&self);
            lemma_calls_after_failures(
                self.policy.max_attempts(),
                self.seen@.push(outcome),
                self.seen@.len(),
            );
        }
        match outcome {
            Ok(value) => RetryStep::Done(Ok(value)),
            Err(error) => {
                if self.made + 1 >= self.max {
                    RetryStep::Done(Err(error))
                } else {
                    let wait = self.policy.sleep_duration().into_duration();
                    let next = RetryRun {
                        policy: self.policy,
                        max: self.max,
                        made: self.made + 1,
                        seen: Ghost(self.seen@.push(outcome)),
                    };
                    RetryStep::Wait(wait, next)
                }
            },
        }
    }
}

impl Retry {
    /// Starts a run: nothing was invoked yet.
    pub fn begin<O, E>(self) -> (run: RetryRun<O, E>)
        ensures
            run.policy() == self,
            run.outcomes() == Seq::<Result<O, E>>::empty(),
    {
        RetryRun { policy: self, max: self.retries(), made: 0, seen: Ghost(Seq::empty()) }
    }
}

/// A task together with the policy under which it is retried.
#[derive(Copy, Clone, Debug)]
pub struct RetryTask<T> {
    task: T,
    retries: Retry,
}

impl<T> RetryTask<T> {
    /// The task that is retried.
    pub closed spec fn task(self) -> T {
        self.task
    }

    /// The policy that its runs follow.
    pub closed spec fn policy(self) -> Retry {
        self.retries
    }

    /// Wraps the task. Nothing is invoked.
    pub fn new(task: T, retries: Retry) -> (wrapped: Self)
        ensures
            wrapped.task() == task,
            wrapped.policy() == retries,
    {
        RetryTask { task, retries }
    }

    pub fn retries(&self) -> (retries: Retry)
        ensures
            retries == self.policy(),
    {
        self.retries
    }

    /// The task itself, for a driver that invokes it in its own way.
    pub fn task_mut(&mut self) -> (task: &mut T)
        ensures
            *task == old(self).task(),
            final(self).task() == *final(task),
            final(self).policy() == old(self).policy(),
    {
        &mut self.task
    }

    /// Starts a run under the task's policy.
    pub fn begin<O, E>(&self) -> (run: RetryRun<O, E>)
        ensures
            run.policy() == self.policy(),
            run.outcomes() == Seq::<Result<O, E>>::empty(),
    {
        self.retries.begin()
    }

    /// Invokes the task once and records what it gave in the run. The step
    /// is the one that the outcome leads to, whichever the task returned.
    pub fn attempt<O, E>(&mut self, run: RetryRun<O, E>) -> (step: RetryStep<O, E>) where
        T: Task<Output = Result<O, E>>,

        ensures
            final(self).policy() == old(self).policy(),
            exists|outcome: Result<O, E>| run.steps_to(outcome, step),
    {
        let outcome = self.task.call();
        run.record(outcome)
    }
}

impl Retry {
    /// Wraps the task under this policy. Nothing is invoked.
    pub fn build_task<T, O, E>(self, task: T) -> (wrapped: RetryTask<T>) where
        T: Task<Output = Result<O, E>>,

        ensures
            wrapped.task() == task,
            wrapped.policy() == self,
    {
        RetryTask::new(task, self)
    }
}

/// Failures that do not end the run are passed over: after `k` of them the
/// count goes on from the invocation numbered `k`.
pub proof fn lemma_calls_after_failures<O, E>(max: nat, outcomes: Seq<Result<O, E>>, k: nat)
    requires
        k <= outcomes.len(),
        forall|i: int| 0 <= i < k ==> !is_final(max, i as nat, #[trigger] outcomes[i]),
    ensures
        run_calls(max, outcomes) == calls_from(max, outcomes, k),
{
    lemma_calls_skip(max, outcomes, 0, k);
}

/// A task that fails every time is invoked exactly as often as the policy
/// allows. The run returns the failure of the last invocation, and waits
/// between the invocations only: once less than it invokes.
pub proof fn always_failing_run<O, E>(max: nat, outcomes: Seq<Result<O, E>>)
    requires
        max >= 1,
        outcomes.len() >= max,
        forall|i: int| 0 <= i < max ==> (#[trigger] outcomes[i]) is Err,
    ensures
        run_calls(max, outcomes) == max,
        run_result(max, outcomes) == Some(outcomes[max - 1]),
        run_waits(max, outcomes) == max - 1,
{
    lemma_calls_after_failures(max, outcomes, (max - 1) as nat);
}

/// A task that first succeeds on its `k`-th invocation, with `k` within
/// the attempts allowed, is invoked exactly `k` times. The run returns that
/// success, and no wait follows it: there are `k - 1` waits, one after each
/// failure.
pub proof fn run_ends_at_first_success<O, E>(max: nat, outcomes: Seq<Result<O, E>>, k: nat)
    requires
        1 <= k <= max,
        k <= outcomes.len(),
        forall|i: int| 0 <= i < k - 1 ==> (#[trigger] outcomes[i]) is Err,
        outcomes[k - 1] is Ok,
    ensures
        run_calls(max, outcomes) == k,
        run_result(max, outcomes) == Some(outcomes[k - 1]),
        run_waits(max, outcomes) == k - 1,
{
    lemma_calls_after_failures(max, outcomes, (k - 1) as nat);
}

/// A run that uses up all its attempts has waited, in all, at least the
/// shortest wait of its policy for each attempt but the last: nothing is
/// waited before the first invocation and nothing after the last.
pub proof fn exhausted_run_waits<O, E>(
    sleep: SleepDuration,
    max: nat,
    outcomes: Seq<Result<O, E>>,
    waits: Seq<Duration>,
)
    requires
        max >= 1,
        outcomes.len() >= max,
        forall|i: int| 0 <= i < max ==> (#[trigger] outcomes[i]) is Err,
        waits.len() == run_waits(max, outcomes),
        forall|i: int| 0 <= i < waits.len() ==> sleep.admits(#[trigger] waits[i]),
    ensures
        waits.len() == max - 1,
        total_nanos(waits) >= (max - 1) * sleep.shortest_nanos(),
        sleep is Duration ==> total_nanos(waits) == (max - 1) * sleep.shortest_nanos(),
{
    always_failing_run(max, outcomes);
    lemma_total_of_admitted(sleep, waits);
}

proof fn lemma_total_of_admitted(sleep: SleepDuration, waits: Seq<Duration>)
    requires
        forall|i: int| 0 <= i < waits.len() ==> sleep.admits(#[trigger] waits[i]),
    ensures
        total_nanos(waits) >= waits.len() * sleep.shortest_nanos(),
        sleep is Duration ==> total_nanos(waits) == waits.len() * sleep.shortest_nanos(),
    decreases waits.len(),
{
    if waits.len() > 0 {
        let rest = waits.drop_last();
        assert forall|i: int| 0 <= i < rest.len() implies sleep.admits(#[trigger] rest[i]) by {
            assert(rest[i] == waits[i]);
        }
        lemma_total_of_admitted(sleep, rest);
        assert(sleep.admits(waits.last()));
        assert(waits.len() * sleep.shortest_nanos() == rest.len() * sleep.shortest_nanos()
            + sleep.shortest_nanos()) by (nonlinear_arith)
            requires
                waits.len() == rest.len() + 1,
        ;
    }
}

proof fn lemma_calls_skip<O, E>(max: nat, outcomes: Seq<Result<O, E>>, from: nat, k: nat)
    requires
        from <= k <= outcomes.len(),
        forall|i: int| from <= i < k ==> !is_final(max, i as nat, #[trigger] outcomes[i]),
    ensures
        calls_from(max, outcomes, from) == calls_from(max, outcomes, k),
    decreases k - from,
{
    if from < k {
        lemma_calls_skip(max, outcomes, from + 1, k);
    }
}

} // verus!
