//! Payloads that are plain byte buffers.
//!
//! The view of a buffer payload is a [`YokedBuffer`]: a byte slice held
//! together with the reference-counted buffer it points into, so that
//! reading, cloning and moving it never copies the bytes.

use crate::marker::DataMarker;
use crate::response::SelectedRc;
use vstd::prelude::*;
use yoke::Yoke;

verus! {

/// How the bytes of a buffer are encoded, as far as the loader knows.
#[derive(Clone, Copy, Debug, PartialEq, Eq, Structural)]
#[non_exhaustive]
pub enum BufferFormat {
    /// Serialized as JSON.
    Json,
    /// Serialized with bincode, format version 1.
    Bincode1,
    /// Serialized with postcard, format version 1.
    Postcard1,
}

/// The marker of payloads whose view is a byte buffer.
pub struct BufferMarker;

impl DataMarker for BufferMarker {
    type Yokeable = YokedBuffer;

    const NAME: &'static str = "BufferMarker";
}

/// A byte slice yoked to the storage it borrows from.
///
/// The value is a `yoke::Yoke` whose view is a `&[u8]` and whose cart is an
/// optional reference-counted `Box<[u8]>`. Verus does not look inside: what
/// the yoke holds is named by [`yoked_bytes`] and [`yoked_cart`], and the
/// functions below that touch the yoke are believed on their contracts.
#[verifier::external_body]
pub struct YokedBuffer {
    yoke: Yoke<&'static [u8], Option<SelectedRc<Box<[u8]>>>>,
}

/// The bytes that the slice inside the yoke shows.
pub uninterp spec fn yoked_bytes(buffer: YokedBuffer) -> Seq<u8>;

/// The bytes of the cart that the yoke keeps alive, if it has one.
pub uninterp spec fn yoked_cart(buffer: YokedBuffer) -> Option<Seq<u8>>;

impl View for YokedBuffer {
    type V = Seq<u8>;

    open spec fn view(&self) -> Seq<u8> {
        yoked_bytes(*self)
    }
}

impl YokedBuffer {
    /// The bytes of the storage that this buffer is attached to, or `None`
    /// for a buffer over static data.
    pub open spec fn cart(&self) -> Option<Seq<u8>> {
        yoked_cart(*self)
    }

    /// Calls `Yoke::new_owned` on a static slice: the yoke shows that slice
    /// and has no cart.
    #[verifier::external_body]
    pub(crate) fn new_static(bytes: &'static [u8]) -> (r: Self)
        ensures
            yoked_bytes(r) == bytes@,
            yoked_cart(r) is None,
    {
        YokedBuffer { yoke: Yoke::new_owned(bytes) }
    }

    /// Calls `Yoke::attach_to_cart` with a closure that borrows the whole
    /// buffer, then `Yoke::wrap_cart_in_option`: the yoke shows the bytes of
    /// `cart` and keeps `cart` as its cart.
    #[verifier::external_body]
    pub(crate) fn attach(cart: SelectedRc<Box<[u8]>>) -> (r: Self)
        ensures
            yoked_bytes(r) == cart@,
            yoked_cart(r) == Some(cart@),
    {
        YokedBuffer { yoke: Yoke::attach_to_cart(cart, |b| &**b).wrap_cart_in_option() }
    }

    /// Calls `Yoke::get`: the slice that the yoke shows.
    #[verifier::external_body]
    fn yoked_slice(&self) -> (r: &[u8])
        ensures
            r@ == yoked_bytes(*self),
    {
        self.yoke.get()
    }

    /// Calls `Yoke::backing_cart`: the cart of the yoke, by reference.
    #[verifier::external_body]
    pub(crate) fn backing_cart(&self) -> (r: Option<&SelectedRc<Box<[u8]>>>)
        ensures
            match r {
                Some(cart) => yoked_cart(*self) == Some(cart@),
                None => yoked_cart(*self) is None,
            },
    {
        self.yoke.backing_cart().as_ref()
    }

    /// The bytes of the buffer.
    pub fn as_slice(&self) -> (r: &[u8])
        ensures
            r@ == self@,
    {
        self.yoked_slice()
    }
}

impl Clone for YokedBuffer {
    /// Calls `Yoke::clone`, which copies the slice reference and clones the
    /// cart handle: the clone shows the same bytes over the same cart.
    #[verifier::external_body]
    fn clone(&self) -> (r: Self)
        ensures
            yoked_bytes(r) == yoked_bytes(*self),
            yoked_cart(r) == yoked_cart(*self),
    {
        YokedBuffer { yoke: self.yoke.clone() }
    }
}

impl core::fmt::Debug for YokedBuffer {
    /// Calls the `fmt` of the byte slice: a buffer prints as the list of
    /// its bytes.
    #[verifier::external_body]
    fn fmt(&self, f: &mut core::fmt::Formatter<'_>) -> core::fmt::Result {
        self.yoked_slice().fmt(f)
    }
}

impl PartialEq for YokedBuffer {
    fn eq(&self, other: &Self) -> (r: bool) {
        let a = self.as_slice();
        let b = other.as_slice();
        if a.len() != b.len() {
            return false;
        }
        let mut i: usize = 0;
        while i < a.len()
            invariant
                i <= a.len(),
                a.len() == b.len(),
                a@ == self@,
                b@ == other@,
                forall|j: int| 0 <= j < i ==> a@[j] == b@[j],
            decreases a.len() - i,
        {
            if a[i] != b[i] {
                assert(a@[i as int] != b@[i as int]);
                return false;
            }
            i += 1;
        }
        assert(a@ =~= b@);
        true
    }
}

impl Eq for YokedBuffer {}

impl vstd::std_specs::cmp::PartialEqSpecImpl for YokedBuffer {
    open spec fn obeys_eq_spec() -> bool {
        true
    }

    open spec fn eq_spec(&self, other: &Self) -> bool {
        self@ == other@
    }
}

} // verus!
