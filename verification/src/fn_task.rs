//! A task made of a plain function.

use crate::task::Task;
use vstd::prelude::*;

verus! {

/// Adapts a function that can be called again and again into a task: each
/// invocation of the task is one fresh call of the function.
#[verifier::reject_recursive_types(O)]
pub struct FnTask<T, O> where T: Fn() -> O {
    fun: T,
}

impl<T, O> FnTask<T, O> where T: Fn() -> O {
    #[verifier::type_invariant]
    spec fn callable(self) -> bool {
        self.fun.requires(())
    }

    /// The function that the task calls.
    pub closed spec fn fun(self) -> T {
        self.fun
    }

    pub fn new(fun: T) -> (task: Self)
        requires
            fun.requires(()),
        ensures
            task.fun() == fun,
    {
        FnTask { fun }
    }
}

impl<T, O> Task for FnTask<T, O> where T: Fn() -> O {
    type Output = O;

    /// Calls the function once and hands back what it gave.
    fn call(&mut self) -> (output: O)
        ensures
            old(self).fun().ensures((), output),
            final(self).fun() == old(self).fun(),
    {
        proof {
            use_type_invariant(&*self);
        }
        (self.fun)()
    }
}

} // verus!
