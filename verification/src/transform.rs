//! The outcome of an operation that may modify its argument in place.

use vstd::prelude::*;

verus! {

/// Tells whether a transformation changed the value it was applied to.
#[derive(Debug, PartialEq, Structural)]
pub enum TransformResult {
    /// The operation modified its argument.
    Modified,
    /// The operation left its argument as it was.
    Unmodified,
}

} // verus!
