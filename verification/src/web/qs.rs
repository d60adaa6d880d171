//! Value wrappers for the nested query-string decoders.

use vstd::prelude::*;

verus! {

/// Wrapper around a value decoded from the request's query string by the
/// nested query-string decoder and already validated.
#[derive(Debug, Clone, PartialEq, Eq, PartialOrd, Ord)]
pub struct QsQuery<T>(pub T);

impl<T> QsQuery<T> {
    /// Unwrap into the inner `T` value.
    pub fn into_inner(self) -> (r: T)
        ensures
            r == self.0,
    {
        self.0
    }
}

/// Wrapper around a value decoded from a form-encoded request body by the
/// nested query-string decoder and already validated.
#[derive(Debug, PartialEq, Eq, PartialOrd, Ord)]
pub struct QsForm<T>(pub T);

impl<T> QsForm<T> {
    /// Unwrap into the inner `T` value.
    pub fn into_inner(self) -> (r: T)
        ensures
            r == self.0,
    {
        self.0
    }
}

impl<T> From<T> for QsForm<T> {
    fn from(inner: T) -> (r: Self) {
        QsForm(inner)
    }
}

impl<T> vstd::std_specs::convert::FromSpecImpl<T> for QsForm<T> {
    open spec fn obeys_from_spec() -> bool {
        true
    }

    open spec fn from_spec(inner: T) -> Self {
        QsForm(inner)
    }
}

} // verus!
