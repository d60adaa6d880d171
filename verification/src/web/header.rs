//! The typed-header extractor's value wrapper.

use vstd::prelude::*;

verus! {

/// Wrapper around a value parsed from a request header and already validated.
#[derive(Debug, Clone, PartialEq, Eq, PartialOrd, Ord)]
pub struct Header<T>(pub T);

impl<T> Header<T> {
    /// Unwrap into the inner `T` value.
    pub fn into_inner(self) -> (r: T)
        ensures
            r == self.0,
    {
        self.0
    }
}

} // verus!
