//! The capability that everything else wraps: work that can be invoked
//! again and again.

use vstd::prelude::*;

verus! {

/// A repeatable unit of work. Each invocation may change what the task
/// holds, and nothing is promised of what it gives back.
pub trait Task {
    type Output;

    fn call(&mut self) -> Self::Output;
}

} // verus!
