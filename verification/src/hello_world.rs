//! A small data struct for examples and tests.

use crate::marker::DataMarker;
use crate::response::DataPayload;
use std::borrow::Cow;
use vstd::prelude::*;

verus! {

/// A data struct that holds one message.
#[derive(Debug, PartialEq, Eq)]
pub struct HelloWorldV1 {
    /// The message, borrowed from static data or owned.
    pub message: Cow<'static, str>,
}

/// Calls `Cow::clone`, which keeps a borrowed string borrowed and copies an
/// owned one: the result holds the same characters.
#[verifier::external_body]
fn clone_message(message: &Cow<'static, str>) -> (r: Cow<'static, str>)
    ensures
        r@ == message@,
{
    message.clone()
}

impl Clone for HelloWorldV1 {
    fn clone(&self) -> (r: Self)
        ensures
            r.message@ == self.message@,
    {
        HelloWorldV1 { message: clone_message(&self.message) }
    }
}

/// The marker of payloads that hold a [`HelloWorldV1`].
pub struct HelloWorldV1Marker;

impl DataMarker for HelloWorldV1Marker {
    type Yokeable = HelloWorldV1;

    const NAME: &'static str = "HelloWorldV1Marker";
}

impl DataPayload<HelloWorldV1Marker> {
    /// Makes a payload whose message is the given static string. The
    /// payload owns its view and has no storage.
    pub fn from_static_str(s: &'static str) -> (r: Self)
        ensures
            r@.message@ == s@,
            r.cart() is None,
    {
        DataPayload::from_owned(HelloWorldV1 { message: Cow::Borrowed(s) })
    }
}

} // verus!
