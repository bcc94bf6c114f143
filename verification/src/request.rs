//! The identity under which a piece of data was resolved.

use vstd::prelude::*;

verus! {

/// The locale that a response was resolved to, held as its identifier.
///
/// The identifier is carried through as it was given: nothing here parses
/// or normalizes it.
#[derive(Debug)]
pub struct DataLocale {
    id: String,
}

impl View for DataLocale {
    type V = Seq<char>;

    closed spec fn view(&self) -> Seq<char> {
        self.id@
    }
}

impl DataLocale {
    /// Wraps a locale identifier.
    pub fn new(id: String) -> (r: Self)
        ensures
            r@ == id@,
    {
        DataLocale { id }
    }

    /// The identifier that this locale was made from.
    pub fn as_str(&self) -> (r: &str)
        ensures
            r@ == self@,
    {
        self.id.as_str()
    }
}

impl Clone for DataLocale {
    fn clone(&self) -> (r: Self)
        ensures
            r == *self,
    {
        DataLocale { id: self.id.clone() }
    }
}

impl PartialEq for DataLocale {
    fn eq(&self, other: &Self) -> (r: bool) {
        self.id == other.id
    }
}

impl Eq for DataLocale {}

impl vstd::std_specs::cmp::PartialEqSpecImpl for DataLocale {
    open spec fn obeys_eq_spec() -> bool {
        true
    }

    open spec fn eq_spec(&self, other: &Self) -> bool {
        self@ == other@
    }
}

} // verus!
