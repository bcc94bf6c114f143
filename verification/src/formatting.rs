//! The types of `core::fmt` that `Debug` implementations pass along.
//!
//! The payload types print themselves through `Debug`. Their `fmt`
//! functions only hand the formatter on to the `fmt` of what they hold, so
//! the two types below are declared without any statement about them.

use vstd::prelude::*;

verus! {

/// The formatter that a `fmt` function writes to. Nothing is read from it;
/// it is only handed on.
#[verifier::external_type_specification]
#[verifier::external_body]
pub struct ExFormatter<'a>(core::fmt::Formatter<'a>);

/// The error that formatting returns. Nothing is read from it.
#[verifier::external_type_specification]
#[verifier::external_body]
pub struct ExFmtError(core::fmt::Error);

} // verus!
