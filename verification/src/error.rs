//! Errors returned by payload and response operations.

use crate::marker::DataMarker;
use vstd::prelude::*;

verus! {

/// The reason an operation on a payload or a response failed.
#[derive(Clone, Copy, Debug, PartialEq, Eq, Structural)]
#[non_exhaustive]
pub enum DataErrorKind {
    /// A response was asked for its payload but holds none.
    MissingPayload,
    /// A payload was asked for something that its current state cannot give.
    InvalidState,
}

/// An error kind together with an optional note on where it arose.
#[derive(Clone, Copy, Debug, PartialEq, Eq)]
#[non_exhaustive]
pub struct DataError {
    /// Why the operation failed.
    pub kind: DataErrorKind,
    /// Where it failed or which type was concerned, for diagnostics.
    pub str_context: Option<&'static str>,
}

impl DataErrorKind {
    /// The error of this kind without context.
    pub open spec fn spec_into_error(self) -> DataError {
        DataError { kind: self, str_context: None }
    }

    /// The error of this kind with the given context string.
    pub open spec fn spec_with_str_context(self, context: &'static str) -> DataError {
        DataError { kind: self, str_context: Some(context) }
    }

    /// Turns the kind into an error without context.
    #[verifier::when_used_as_spec(spec_into_error)]
    pub fn into_error(self) -> (e: DataError)
        ensures
            e == self.spec_into_error(),
    {
        DataError { kind: self, str_context: None }
    }

    /// Turns the kind into an error that carries `context`.
    #[verifier::when_used_as_spec(spec_with_str_context)]
    pub fn with_str_context(self, context: &'static str) -> (e: DataError)
        ensures
            e == self.spec_with_str_context(context),
    {
        DataError { kind: self, str_context: Some(context) }
    }

    /// Turns the kind into an error whose context names the marker `M`.
    pub fn with_type_context<M: DataMarker>(self) -> (e: DataError)
        ensures
            e == self.spec_with_str_context(M::NAME),
    {
        DataError { kind: self, str_context: Some(M::NAME) }
    }
}

} // verus!
