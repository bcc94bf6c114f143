//! The shape of a payload: which view type a marker stands for.

use vstd::prelude::*;

verus! {

/// Associates a marker type with the type of the view that payloads of that
/// marker hold.
///
/// A marker is never instantiated; it only names a shape. Two markers may
/// name the same view type, in which case payloads can be converted between
/// them at no cost with [`DataPayload::cast`](crate::DataPayload::cast).
pub trait DataMarker {
    /// The view that a payload of this marker holds.
    type Yokeable;

    /// A name for the marker, used in diagnostics.
    const NAME: &'static str = "unnamed marker";
}

} // verus!
