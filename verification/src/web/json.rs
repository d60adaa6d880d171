//! The JSON-body extractor's value wrapper.

use vstd::prelude::*;

verus! {

/// Wrapper around a value decoded from a JSON request body and already
/// validated.
#[derive(Debug)]
pub struct Json<T>(pub T);

impl<T> Json<T> {
    /// Unwrap into the inner `T` value.
    pub fn into_inner(self) -> (r: T)
        ensures
            r == self.0,
    {
        self.0
    }
}

} // verus!
