//! The alternative query-string extractor's value wrapper.

use vstd::prelude::*;

verus! {

/// Wrapper around a value decoded from the request's query string by the
/// alternative query decoder and already validated.
#[derive(Debug, Clone, PartialEq, Eq, PartialOrd, Ord)]
pub struct Query<T>(pub T);

impl<T> Query<T> {
    /// Unwrap into the inner `T` value.
    pub fn into_inner(self) -> (r: T)
        ensures
            r == self.0,
    {
        self.0
    }
}

} // verus!
