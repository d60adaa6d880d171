//! The path-segments extractor's value wrapper.

use vstd::prelude::*;

verus! {

/// Wrapper around a value decoded from the request's matched path segments
/// and already validated.
#[derive(Debug, PartialEq, Eq, PartialOrd, Ord)]
pub struct Path<T>(pub T);

impl<T> Path<T> {
    /// Unwrap into the inner `T` value.
    pub fn into_inner(self) -> (r: T)
        ensures
            r == self.0,
    {
        self.0
    }
}

impl<T> From<T> for Path<T> {
    fn from(inner: T) -> (r: Self) {
        Path(inner)
    }
}

impl<T> vstd::std_specs::convert::FromSpecImpl<T> for Path<T> {
    open spec fn obeys_from_spec() -> bool {
        true
    }

    open spec fn from_spec(inner: T) -> Self {
        Path(inner)
    }
}

} // verus!
