//! Data payloads that travel together with the bytes they were read from.
//!
//! A [`DataPayload`] pairs a parsed view of some data with an optional
//! reference-counted handle (a [`Cart`]) to the byte buffer the view was
//! derived from. The pair moves and clones as one value, can be mutated in
//! place, and can be projected to a payload of another shape that keeps
//! the same storage handle. A [`DataResponse`] carries such a payload,
//! possibly absent, next to metadata about how it was resolved.
//!
//! The crate is written in Verus: functions state what they return or
//! change, and the statements are proved. The few places where a proof
//! rests on the behaviour of `std` or of the `yoke` crate are marked and
//! say what they take on trust.

pub mod buf;
pub mod error;
mod formatting;
pub mod hello_world;
pub mod marker;
pub mod request;
pub mod response;
pub mod subtags;
pub mod transform;

pub use buf::{BufferFormat, BufferMarker, YokedBuffer};
pub use error::{DataError, DataErrorKind};
pub use marker::DataMarker;
pub use request::DataLocale;
pub use response::{Cart, DataPayload, DataResponse, DataResponseMetadata};
pub use subtags::{Variant, Variants};
pub use transform::TransformResult;
