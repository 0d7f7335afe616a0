//! Support for embedding the player in other applications.

use vstd::prelude::*;

verus! {

/// A future that is polled with the player's async runtime entered, so that
/// it may be awaited from a foreign executor.
pub struct WithTokio<F> {
    future: F,
}

impl<F> WithTokio<F> {
    /// Wraps `future`.
    pub fn new(future: F) -> (r: Self)
        ensures
            r.wrapped() == future,
    {
        WithTokio { future }
    }

    /// The wrapped future.
    pub closed spec fn wrapped(&self) -> F {
        self.future
    }

    /// Gives the wrapped future back.
    pub fn into_inner(self) -> (r: F)
        ensures
            r == self.wrapped(),
    {
        self.future
    }
}

} // verus!
