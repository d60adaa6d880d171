//! The nested query-string extractor's value wrapper, configured variant.

use vstd::prelude::*;

verus! {

/// Wrapper around a value decoded from the request's query string by the
/// nested query-string decoder and already validated.
#[derive(Debug, Clone, PartialEq, Eq, PartialOrd, Ord)]
pub struct QsQuery<T>(pub T);

impl<T> QsQuery<T> {
    /// Unwrap into the inner `T` value.
    pub fn into_inner(self) -> (r: T)
        ensures
            r == self.0,
    {
        self.0
    }
}

} // verus!
