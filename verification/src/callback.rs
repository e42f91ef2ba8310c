//! The completion of an asynchronous operation: a closure that is called
//! once, with the typed outcome, when the native library reports that the
//! operation is done.
//!
//! The closure is held by a value that can be neither copied nor cloned, and
//! both ways out of it take it by value: it is invoked, or it is reclaimed
//! where the operation could not even be started. After either there is
//! nothing left to invoke a second time.

use vstd::prelude::*;
use crate::status::{complete, completion_of, Error};

verus! {

/// A completion closure waiting for its operation to finish.
pub struct CallbackBox<F> {
    closure: F,
}

impl<F> CallbackBox<F> {
    /// The closure that waits.
    pub closed spec fn closure(self) -> F {
        self.closure
    }

    /// Takes hold of `closure` until its operation completes.
    pub fn bind(closure: F) -> (bound: Self)
        ensures
            bound.closure() == closure,
    {
        CallbackBox { closure }
    }

    /// Gives the closure back uncalled, for an operation that failed before
    /// it was handed to the native library.
    pub fn reclaim(self) -> (closure: F)
        ensures
            closure == self.closure(),
    {
        self.closure
    }

    /// Calls the closure with `outcome`, once, and is gone.
    pub fn invoke<T>(self, outcome: T) where F: FnOnce(T)
        requires
            call_requires(self.closure(), (outcome,)),
        ensures
            call_ensures(self.closure(), (outcome,), ()),
    {
        (self.closure)(outcome)
    }

    /// Reports a completion: calls the closure with the typed result made of
    /// the status code and of the value that came with it. The closure sees
    /// the value on success only.
    pub fn complete<T>(self, code: i32, value: T) where F: FnOnce(Result<T, Error>)
        requires
            call_requires(self.closure(), (completion_of(code, value),)),
        ensures
            call_ensures(self.closure(), (completion_of(code, value),), ()),
    {
        self.invoke(complete(code, value))
    }
}

} // verus!
