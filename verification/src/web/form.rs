//! The form-body extractor's value wrapper.

use vstd::prelude::*;

verus! {

/// Wrapper around a value decoded from a form-encoded request body and
/// already validated.
#[derive(Debug, PartialEq, Eq, PartialOrd, Ord)]
pub struct Form<T>(pub T);

impl<T> Form<T> {
    /// Unwrap into the inner `T` value.
    pub fn into_inner(self) -> (r: T)
        ensures
            r == self.0,
    {
        self.0
    }
}

} // verus!
