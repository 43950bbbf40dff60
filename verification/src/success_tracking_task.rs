//! The liveness latch itself: a flag that all clones of a holder share.
//!
//! The flag can change between any two steps of a holder, because another
//! holder may end it at any time. So nothing is stated of what a read of it
//! gives; what is done with the value read is stated exactly, by the rules
//! in [`crate::liveness`].

use crate::liveness::{conclude, continue_loop, enter_loop, gate, guarded, LoopStep, RunError};
use std::sync::atomic::AtomicBool;
use std::sync::atomic::Ordering;
use std::sync::Arc;
use vstd::prelude::*;

verus! {

/// A holder of a liveness latch. Clones share one flag: what one of them
/// ends is ended for all. Discarding a holder ends the latch too, so that
/// work which depends on a holder that is gone does not go on forever.
#[derive(Debug, Clone)]
pub struct SuccessTrackingTask {
    is_alive: Arc<AtomicBool>,
    is_debug_print: bool,
}

impl SuccessTrackingTask {
    /// Whether failures are to be reported as they happen.
    pub closed spec fn prints_errors(self) -> bool {
        self.is_debug_print
    }

    /// A latch of its own, alive, that reports nothing. That it is alive is
    /// the first value of the shared flag, which no contract can speak of.
    pub fn new() -> (latch: Self)
        ensures
            !latch.prints_errors(),
    {
        SuccessTrackingTask { is_alive: Arc::new(AtomicBool::new(true)), is_debug_print: false }
    }

    pub fn set_debug_print_err(&mut self)
        ensures
            final(self).prints_errors(),
    {
        self.is_debug_print = true;
    }

    pub fn debug_print_err(&self) -> (prints: bool)
        ensures
            prints == self.prints_errors(),
    {
        self.is_debug_print
    }

    /// Reads the shared flag. Any holder may end the latch at any moment,
    /// so nothing is promised of the value: what follows from it is decided
    /// by functions that take it as an argument.
    pub fn is_alive(&self) -> bool {
        self.is_alive.load(Ordering::Acquire)
    }

    /// Ends the latch, for every holder. Ending it twice changes nothing.
    pub fn abort(&self)
        opens_invariants none
        no_unwind
    {
        store_release(&self.is_alive, false);
    }

    /// Lets work begin if the latch is found alive: reads the flag once
    /// and hands it to [`gate`]. Whichever way the flag was found, the only
    /// refusal is that the latch was dead.
    pub fn check<E>(&self) -> (entry: Result<(), RunError<E>>)
        ensures
            entry is Err ==> entry == Err::<(), RunError<E>>(RunError::AlreadyDead),
    {
        gate(self.is_alive())
    }

    /// Takes the outcome of work that ran through the latch: a failure
    /// ends the latch before it is handed on.
    pub fn settle<R, E>(&self, outcome: Result<R, E>) -> (result: Result<R, RunError<E>>)
        ensures
            result == guarded(true, outcome),
    {
        if outcome.is_err() {
            self.abort();
        }
        conclude(outcome)
    }

    /// Runs the operation through the latch. On a dead latch it is not
    /// run. Else it is run once; its failure ends the latch.
    pub fn run<F, R, E>(&self, operation: F) -> (result: Result<R, RunError<E>>) where
        F: FnOnce() -> Result<R, E>,

        requires
            operation.requires(()),
        ensures
            result == Err::<R, RunError<E>>(RunError::AlreadyDead) || exists|outcome: Result<R, E>|
                operation.ensures((), outcome) && result == guarded(true, outcome),
    {
        match self.check::<E>() {
            Err(_) => Err(RunError::AlreadyDead),
            Ok(_) => {
                let outcome = operation();
                self.settle(outcome)
            },
        }
    }

    /// The first step of a loop over a repeated task: reads the flag once
    /// and hands it to [`enter_loop`]. The step is the one of a live latch
    /// or the one of a dead latch, as the flag was found.
    pub fn enter_while_alive<E>(&self) -> (step: LoopStep<E>)
        ensures
            step == LoopStep::<E>::on_entry(true) || step == LoopStep::<E>::on_entry(false),
    {
        enter_loop(self.is_alive())
    }

    /// The step after an invocation of the task. A failure ends the latch
    /// and leaves the loop with the error; after a success the flag decides.
    pub fn after_call<E>(&self, outcome: Result<(), E>) -> (step: LoopStep<E>)
        ensures
            step == LoopStep::after_call(outcome, true) || step == LoopStep::after_call(
                outcome,
                false,
            ),
    {
        if outcome.is_err() {
            self.abort();
        }
        continue_loop(outcome, self.is_alive())
    }
}

/// Calls `AtomicBool::store` with release ordering. The store does not
/// panic with this ordering, so a holder that is being discarded can make
/// it; nothing else is claimed of it.
#[verifier::external_body]
fn store_release(flag: &AtomicBool, value: bool)
    opens_invariants none
    no_unwind
{
    flag.store(value, Ordering::Release);
}

impl Drop for SuccessTrackingTask {
    fn drop(&mut self)
        opens_invariants none
        no_unwind
    {
        self.abort()
    }
}

} // verus!
