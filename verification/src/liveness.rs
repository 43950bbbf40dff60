//! The rules of the liveness latch, apart from the flag that holds its
//! state: what a guarded operation returns, when the loop of a repeated
//! task goes on, and what a whole run of that loop comes to.

use vstd::prelude::*;

verus! {

/// Why work that ran through a latch gave no value.
#[derive(Debug, Clone, Copy, PartialEq, Eq)]
pub enum RunError<E> {
    /// The latch was dead before the work began: nothing was run.
    AlreadyDead,
    /// The work ran and failed with this error, which killed the latch.
    Failed(E),
}

/// Something that happens to a latch after it was made.
pub enum LatchEvent {
    /// A holder called for the end.
    Abort,
    /// A guarded operation finished, well or not.
    Finished { ok: bool },
    /// A holder was discarded.
    Dropped,
}

impl LatchEvent {
    /// Whether the event kills the latch: everything does but an operation
    /// that went well.
    pub open spec fn kills(self) -> bool {
        !(self matches LatchEvent::Finished { ok } && ok)
    }
}

/// Whether a latch is alive after these events: it is born alive and stays
/// so until the first event that kills it.
pub open spec fn alive_after(events: Seq<LatchEvent>) -> bool {
    forall|i: int| 0 <= i < events.len() ==> !(#[trigger] events[i]).kills()
}

/// What a guarded operation returns: nothing of its own when the latch was
/// dead, else its outcome, a failure marked as such.
pub open spec fn guarded<R, E>(alive: bool, outcome: Result<R, E>) -> Result<R, RunError<E>> {
    if !alive {
        Err(RunError::AlreadyDead)
    } else {
        match outcome {
            Ok(value) => Ok(value),
            Err(error) => Err(RunError::Failed(error)),
        }
    }
}

/// Lets work begin on a live latch only.
pub fn gate<E>(alive: bool) -> (entry: Result<(), RunError<E>>)
    ensures
        entry == (if alive {
            Ok::<(), RunError<E>>(())
        } else {
            Err(RunError::AlreadyDead)
        }),
{
    if alive {
        Ok(())
    } else {
        Err(RunError::AlreadyDead)
    }
}

/// Turns the outcome of work that did run into what the latch returns.
pub fn conclude<R, E>(outcome: Result<R, E>) -> (result: Result<R, RunError<E>>)
    ensures
        result == guarded(true, outcome),
{
    match outcome {
        Ok(value) => Ok(value),
        Err(error) => Err(RunError::Failed(error)),
    }
}

/// What the driver of a loop over a repeated task does next.
#[derive(Debug, PartialEq, Eq)]
pub enum LoopStep<E> {
    /// Invoke the task once more.
    Invoke,
    /// Leave the loop with this result.
    Return(Result<(), RunError<E>>),
}

impl<E> LoopStep<E> {
    /// The step on entry: a dead latch refuses the loop.
    pub open spec fn on_entry(alive: bool) -> Self {
        if alive {
            LoopStep::Invoke
        } else {
            LoopStep::Return(Err(RunError::AlreadyDead))
        }
    }

    /// The step after an invocation. A failure leaves the loop with that
    /// error. After a success the loop goes on while the latch is alive;
    /// found dead, it was ended from outside, and the loop leaves cleanly.
    pub open spec fn after_call(outcome: Result<(), E>, alive: bool) -> Self {
        match outcome {
            Err(error) => LoopStep::Return(Err(RunError::Failed(error))),
            Ok(_) => if alive {
                LoopStep::Invoke
            } else {
                LoopStep::Return(Ok(()))
            },
        }
    }
}

pub fn enter_loop<E>(alive: bool) -> (step: LoopStep<E>)
    ensures
        step == LoopStep::<E>::on_entry(alive),
{
    if alive {
        LoopStep::Invoke
    } else {
        LoopStep::Return(Err(RunError::AlreadyDead))
    }
}

pub fn continue_loop<E>(outcome: Result<(), E>, alive: bool) -> (step: LoopStep<E>)
    ensures
        step == LoopStep::after_call(outcome, alive),
{
    match outcome {
        Err(error) => LoopStep::Return(Err(RunError::Failed(error))),
        Ok(_) => {
            if alive {
                LoopStep::Invoke
            } else {
                LoopStep::Return(Ok(()))
            }
        },
    }
}

/// How many invocations a loop makes, from the one numbered `made` on,
/// once it was let in. The invocation numbered `i` gives `outcomes[i]`, and
/// the latch is found as `alive[i + 1]` after it; `alive[0]` is how it was
/// found on entry.
pub open spec fn loop_calls_from<E>(
    outcomes: Seq<Result<(), E>>,
    alive: Seq<bool>,
    made: nat,
) -> nat
    decreases outcomes.len() - made,
{
    if made >= outcomes.len() {
        made
    } else if outcomes[made as int] is Err || made + 1 >= alive.len() || !alive[made as int + 1] {
        made + 1
    } else {
        loop_calls_from(outcomes, alive, made + 1)
    }
}

/// How many times a loop invokes its task: not at all unless the latch was
/// alive on entry.
pub open spec fn loop_calls<E>(outcomes: Seq<Result<(), E>>, alive: Seq<bool>) -> nat {
    if alive.len() > 0 && alive[0] {
        loop_calls_from(outcomes, alive, 0)
    } else {
        0
    }
}

/// What the loop returns, or `None` while it is still turning.
pub open spec fn loop_result<E>(outcomes: Seq<Result<(), E>>, alive: Seq<bool>) -> Option<
    Result<(), RunError<E>>,
> {
    let calls = loop_calls(outcomes, alive);
    if alive.len() == 0 {
        None
    } else if calls == 0 {
        match LoopStep::<E>::on_entry(alive[0]) {
            LoopStep::Return(result) => Some(result),
            LoopStep::Invoke => None,
        }
    } else if calls <= outcomes.len() && calls < alive.len() {
        match LoopStep::after_call(outcomes[calls - 1], alive[calls as int]) {
            LoopStep::Return(result) => Some(result),
            LoopStep::Invoke => None,
        }
    } else if calls <= outcomes.len() && outcomes[calls - 1] is Err {
        match LoopStep::after_call(outcomes[calls - 1], false) {
            LoopStep::Return(result) => Some(result),
            LoopStep::Invoke => None,
        }
    } else {
        None
    }
}

/// A latch is alive when it is made.
pub proof fn latch_is_born_alive()
    ensures
        alive_after(Seq::<LatchEvent>::empty()),
{
}

/// An abort kills the latch, whatever came before, and so does a guarded
/// operation that fails, and a holder that is discarded.
pub proof fn latch_dies_of(events: Seq<LatchEvent>, event: LatchEvent)
    requires
        event.kills(),
    ensures
        !alive_after(events.push(event)),
{
    let after = events.push(event);
    assert(after[events.len() as int].kills());
}

/// A guarded operation that goes well leaves the latch as it was.
pub proof fn latch_survives_success(events: Seq<LatchEvent>)
    ensures
        alive_after(events.push(LatchEvent::Finished { ok: true })) == alive_after(events),
{
    let after = events.push(LatchEvent::Finished { ok: true });
    if alive_after(events) {
        assert forall|i: int| 0 <= i < after.len() implies !(#[trigger] after[i]).kills() by {
            if i < events.len() {
                assert(after[i] == events[i]);
            }
        }
    } else {
        let i = choose|i: int| 0 <= i < events.len() && (#[trigger] events[i]).kills();
        assert(after[i] == events[i]);
    }
}

/// The latch goes one way only: once dead, nothing that follows brings it
/// back.
pub proof fn latch_stays_dead(before: Seq<LatchEvent>, later: Seq<LatchEvent>)
    requires
        !alive_after(before),
    ensures
        !alive_after(before + later),
{
    let i = choose|i: int| 0 <= i < before.len() && (#[trigger] before[i]).kills();
    assert((before + later)[i] == before[i]);
}

/// On a dead latch nothing is run: the guarded operation is refused
/// whatever it would have given, and a loop makes no invocation.
pub proof fn dead_latch_runs_nothing<R, E>(
    outcome: Result<R, E>,
    outcomes: Seq<Result<(), E>>,
    alive: Seq<bool>,
)
    requires
        alive.len() > 0,
        !alive[0],
    ensures
        guarded(false, outcome) == Err::<R, RunError<E>>(RunError::AlreadyDead),
        loop_calls(outcomes, alive) == 0,
        loop_result(outcomes, alive) == Some(Err::<(), RunError<E>>(RunError::AlreadyDead)),
{
}

/// A loop whose task first fails on its `k`-th invocation, on a latch that
/// nobody else ends before, invokes the task exactly `k` times and returns
/// that failure.
pub proof fn loop_ends_at_first_failure<E>(
    outcomes: Seq<Result<(), E>>,
    alive: Seq<bool>,
    k: nat,
)
    requires
        1 <= k <= outcomes.len(),
        k <= alive.len(),
        forall|i: int| 0 <= i < k ==> #[trigger] alive[i],
        forall|i: int| 0 <= i < k - 1 ==> (#[trigger] outcomes[i]) is Ok,
        outcomes[k - 1] is Err,
    ensures
        loop_calls(outcomes, alive) == k,
        loop_result(outcomes, alive) == Some(
            Err::<(), RunError<E>>(RunError::Failed(outcomes[k - 1]->Err_0)),
        ),
{
    lemma_loop_skip(outcomes, alive, 0, (k - 1) as nat);
}

/// A loop whose latch is ended from outside after the `j`-th invocation,
/// with no failure until then, invokes the task exactly `j` times and
/// leaves cleanly.
pub proof fn loop_ends_on_outside_abort<E>(
    outcomes: Seq<Result<(), E>>,
    alive: Seq<bool>,
    j: nat,
)
    requires
        1 <= j <= outcomes.len(),
        j < alive.len(),
        forall|i: int| 0 <= i < j ==> #[trigger] alive[i],
        !alive[j as int],
        forall|i: int| 0 <= i < j ==> (#[trigger] outcomes[i]) is Ok,
    ensures
        loop_calls(outcomes, alive) == j,
        loop_result(outcomes, alive) == Some(Ok::<(), RunError<E>>(())),
{
    lemma_loop_skip(outcomes, alive, 0, (j - 1) as nat);
}

proof fn lemma_loop_skip<E>(outcomes: Seq<Result<(), E>>, alive: Seq<bool>, from: nat, k: nat)
    requires
        from <= k < outcomes.len(),
        k < alive.len(),
        forall|i: int| from <= i < k ==> (#[trigger] outcomes[i]) is Ok,
        forall|i: int| from < i <= k ==> #[trigger] alive[i],
    ensures
        loop_calls_from(outcomes, alive, from) == loop_calls_from(outcomes, alive, k),
    decreases k - from,
{
    if from < k {
        assert(outcomes[from as int] is Ok);
        assert(alive[from as int + 1]);
        lemma_loop_skip(outcomes, alive, from + 1, k);
    }
}

} // verus!
