//! The payload container and the response that carries it.

use crate::buf::{BufferFormat, BufferMarker, YokedBuffer};
use crate::error::{DataError, DataErrorKind};
use crate::marker::DataMarker;
use crate::request::DataLocale;
use std::marker::PhantomData;
use std::rc::Rc;
use vstd::prelude::*;
use vstd::std_specs::cmp::PartialEqSpec;

verus! {

/// Metadata about a response: how the data was resolved and in which
/// format its buffer is, where known.
#[derive(Debug)]
#[non_exhaustive]
pub struct DataResponseMetadata {
    /// The locale the data was resolved to, if fallback took place.
    pub locale: Option<DataLocale>,
    /// The format of the buffer for buffer-backed data, if known.
    pub buffer_format: Option<BufferFormat>,
}

impl Default for DataResponseMetadata {
    fn default() -> (r: Self)
        ensures
            r.locale is None,
            r.buffer_format is None,
    {
        DataResponseMetadata { locale: None, buffer_format: None }
    }
}

impl Clone for DataResponseMetadata {
    fn clone(&self) -> (r: Self)
        ensures
            r == *self,
    {
        let locale = match &self.locale {
            Some(locale) => Some(locale.clone()),
            None => None,
        };
        DataResponseMetadata { locale, buffer_format: self.buffer_format }
    }
}

impl PartialEq for DataResponseMetadata {
    fn eq(&self, other: &Self) -> (r: bool) {
        let same_locale = match (&self.locale, &other.locale) {
            (Some(a), Some(b)) => a == b,
            (None, None) => true,
            _ => false,
        };
        same_locale && self.buffer_format == other.buffer_format
    }
}

impl vstd::std_specs::cmp::PartialEqSpecImpl for DataResponseMetadata {
    open spec fn obeys_eq_spec() -> bool {
        true
    }

    open spec fn eq_spec(&self, other: &Self) -> bool {
        &&& match (self.locale, other.locale) {
            (Some(a), Some(b)) => a@ == b@,
            (None, None) => true,
            _ => false,
        }
        &&& self.buffer_format == other.buffer_format
    }
}

/// The reference-counted pointer that storage handles are made of.
///
/// This alias is the one place that decides how handles are counted. With
/// `Rc` the count is plain, and payloads stay on the thread that made them;
/// with `Arc` in its place the count is atomic, and payloads may cross
/// threads.
pub type SelectedRc<T> = Rc<T>;

/// Calls `clone` of the selected pointer (`Rc::clone`), which makes another
/// pointer to the same allocation: the result points at the same bytes.
#[verifier::external_body]
fn rc_share(storage: &SelectedRc<Box<[u8]>>) -> (r: SelectedRc<Box<[u8]>>)
    ensures
        r == *storage,
{
    SelectedRc::clone(storage)
}

/// A reference-counted handle to an immutable byte buffer.
///
/// Cloning a cart yields another handle to the same bytes; the bytes are
/// freed when the last handle goes away. How the handles are counted is
/// decided by [`SelectedRc`].
pub struct Cart {
    storage: SelectedRc<Box<[u8]>>,
}

impl View for Cart {
    type V = Seq<u8>;

    closed spec fn view(&self) -> Seq<u8> {
        self.storage@
    }
}

impl Clone for Cart {
    fn clone(&self) -> (r: Self)
        ensures
            r == *self,
    {
        Cart { storage: rc_share(&self.storage) }
    }
}

impl core::ops::Deref for Cart {
    type Target = Box<[u8]>;

    /// The buffer behind the handle.
    fn deref(&self) -> (r: &Box<[u8]>)
        ensures
            r@ == self@,
    {
        &*self.storage
    }
}

impl Cart {
    /// Puts `bytes` behind a fresh handle.
    fn new(bytes: Box<[u8]>) -> (r: Self)
        ensures
            r@ == bytes@,
    {
        Cart { storage: SelectedRc::new(bytes) }
    }

    /// Takes ownership of `cart`, puts it behind a fresh handle and lets `f`
    /// derive a view from the bytes.
    ///
    /// If `f` succeeds, the payload holds the view attached to the handle.
    /// If `f` fails, its error is returned as it is and the bytes are
    /// released.
    pub fn try_make_yoke<M, F, E>(cart: Box<[u8]>, f: F) -> (r: Result<DataPayload<M>, E>)
        where
            M: DataMarker,
            F: for<'a> FnOnce(&'a [u8]) -> Result<M::Yokeable, E>,
        requires
            forall|bytes: &[u8]| bytes@ == cart@ ==> call_requires(f, (bytes,)),
        ensures
            match r {
                Ok(payload) => payload.is_attached_to(cart@) && exists|bytes: &[u8]|
                    bytes@ == cart@ && call_ensures(f, (bytes,), Ok(payload@)),
                Err(e) => exists|bytes: &[u8]| bytes@ == cart@ && call_ensures(f, (bytes,), Err(e)),
            },
    {
        let handle = Cart::new(cart);
        match f(&**handle) {
            Ok(data) => Ok(DataPayload { data, cart: Some(handle) }),
            Err(e) => Err(e),
        }
    }
}

/// A view of some data together with the storage it was derived from.
///
/// The payload holds exactly one view, of the type that the marker `M`
/// names, and at most one [`Cart`]. A payload made from an owned value has
/// no cart. A payload made from a byte buffer keeps the cart of that buffer
/// for as long as it lives, through every mutation and projection.
pub struct DataPayload<M: DataMarker> {
    data: M::Yokeable,
    cart: Option<Cart>,
}

impl<M: DataMarker> View for DataPayload<M> {
    type V = M::Yokeable;

    /// The view that the payload holds.
    closed spec fn view(&self) -> M::Yokeable {
        self.data
    }
}

impl<M: DataMarker> DataPayload<M> {
    /// The storage handle that the payload holds, if any.
    pub closed spec fn cart(&self) -> Option<Cart> {
        self.cart
    }

    /// The bytes of the storage that the payload is attached to, if any.
    pub open spec fn storage(&self) -> Option<Seq<u8>> {
        match self.cart() {
            Some(cart) => Some(cart@),
            None => None,
        }
    }

    /// Whether the payload is attached to storage that holds `bytes`.
    pub open spec fn is_attached_to(&self, bytes: Seq<u8>) -> bool {
        self.storage() == Some(bytes)
    }

    /// Whether this payload is what cloning `source` may give: a clone of
    /// the view of `source`, with a handle to the same storage.
    pub open spec fn is_clone_of(&self, source: &Self) -> bool where M::Yokeable: Clone {
        &&& cloned(source@, self@)
        &&& self.cart() == source.cart()
    }

    /// The payload that holds `data` and no storage handle.
    pub closed spec fn spec_from_owned(data: M::Yokeable) -> Self {
        DataPayload { data, cart: None }
    }

    /// What reclaiming the view of this payload gives: the view if the
    /// payload has no storage handle, an error otherwise.
    pub open spec fn spec_try_unwrap_owned(self) -> Result<M::Yokeable, DataError> {
        if self.cart() is None {
            Ok(self@)
        } else {
            Err(DataErrorKind::InvalidState.spec_with_str_context("try_unwrap_owned"))
        }
    }

    /// Wraps a fully owned view in a payload without storage.
    #[verifier::when_used_as_spec(spec_from_owned)]
    pub fn from_owned(data: M::Yokeable) -> (r: Self)
        ensures
            r == Self::spec_from_owned(data),
            r@ == data,
            r.cart() is None,
    {
        DataPayload { data, cart: None }
    }

    /// Gives back the view of a payload that was made from an owned value.
    ///
    /// Fails with [`DataErrorKind::InvalidState`] if the payload is attached
    /// to storage: a view derived from a buffer never leaves its payload.
    #[verifier::when_used_as_spec(spec_try_unwrap_owned)]
    pub fn try_unwrap_owned(self) -> (r: Result<M::Yokeable, DataError>)
        ensures
            r == self.spec_try_unwrap_owned(),
    {
        match self.cart {
            Some(_) => Err(DataErrorKind::InvalidState.with_str_context("try_unwrap_owned")),
            None => Ok(self.data),
        }
    }

    /// Mutates the view in place.
    ///
    /// The mutator runs exactly once, on the view of this payload, and must
    /// not depend on anything borrowed from its surroundings. The storage
    /// handle is left as it is.
    pub fn with_mut<F>(&mut self, f: F)
        where F: 'static + for<'b> FnOnce(&'b mut M::Yokeable)
        requires
            forall|m: &mut M::Yokeable| mut_ref_current(m) == old(self)@ ==> call_requires(f, (m,)),
        ensures
            final(self).cart() == old(self).cart(),
            exists|m: &mut M::Yokeable|
                mut_ref_current(m) == old(self)@ && mut_ref_future(m) == final(self)@
                    && call_ensures(f, (m,), ()),
    {
        f(&mut self.data)
    }

    /// Borrows the view.
    pub fn get(&self) -> (r: &M::Yokeable)
        ensures
            *r == self@,
    {
        &self.data
    }

    /// Borrows the storage handle, if the payload has one.
    pub fn backing_cart(&self) -> (r: Option<&Cart>)
        ensures
            match r {
                Some(cart) => self.cart() == Some(*cart),
                None => self.cart() is None,
            },
    {
        self.cart.as_ref()
    }

    /// Turns the payload into one of another shape by applying `f` to the
    /// view. The storage handle moves over unchanged.
    ///
    /// The second argument of `f` carries no information.
    pub fn map_project<M2, F>(self, f: F) -> (r: DataPayload<M2>)
        where
            M2: DataMarker,
            F: for<'a> FnOnce(M::Yokeable, PhantomData<&'a ()>) -> M2::Yokeable,
        requires
            call_requires(f, (self@, PhantomData)),
        ensures
            call_ensures(f, (self@, PhantomData), r@),
            r.cart() == self.cart(),
    {
        DataPayload { data: f(self.data, PhantomData), cart: self.cart }
    }

    /// Like [`map_project`](Self::map_project), but borrows the payload: `f`
    /// reads the view and makes an owned one, and the new payload gets a
    /// second handle to the same storage. The payload itself is unchanged.
    pub fn map_project_cloned<'this, M2, F>(&'this self, f: F) -> (r: DataPayload<M2>)
        where
            M2: DataMarker,
            F: for<'a> FnOnce(&'this M::Yokeable, PhantomData<&'a ()>) -> M2::Yokeable,
        requires
            call_requires(f, (&self@, PhantomData)),
        ensures
            call_ensures(f, (&self@, PhantomData), r@),
            r.cart() == self.cart(),
    {
        let data = f(&self.data, PhantomData);
        DataPayload { data, cart: Self::share_cart(&self.cart) }
    }

    /// Like [`map_project`](Self::map_project), but `f` may fail. Its error
    /// is returned as it is, and no payload is made.
    pub fn try_map_project<M2, F, E>(self, f: F) -> (r: Result<DataPayload<M2>, E>)
        where
            M2: DataMarker,
            F: for<'a> FnOnce(M::Yokeable, PhantomData<&'a ()>) -> Result<M2::Yokeable, E>,
        requires
            call_requires(f, (self@, PhantomData)),
        ensures
            match r {
                Ok(payload) => call_ensures(f, (self@, PhantomData), Ok(payload@))
                    && payload.cart() == self.cart(),
                Err(e) => call_ensures(f, (self@, PhantomData), Err(e)),
            },
    {
        match f(self.data, PhantomData) {
            Ok(data) => Ok(DataPayload { data, cart: self.cart }),
            Err(e) => Err(e),
        }
    }

    /// Like [`map_project_cloned`](Self::map_project_cloned), but `f` may
    /// fail. Its error is returned as it is, and no payload is made.
    pub fn try_map_project_cloned<'this, M2, F, E>(&'this self, f: F) -> (r: Result<
        DataPayload<M2>,
        E,
    >)
        where
            M2: DataMarker,
            F: for<'a> FnOnce(&'this M::Yokeable, PhantomData<&'a ()>) -> Result<M2::Yokeable, E>,
        requires
            call_requires(f, (&self@, PhantomData)),
        ensures
            match r {
                Ok(payload) => call_ensures(f, (&self@, PhantomData), Ok(payload@))
                    && payload.cart() == self.cart(),
                Err(e) => call_ensures(f, (&self@, PhantomData), Err(e)),
            },
    {
        match f(&self.data, PhantomData) {
            Ok(data) => Ok(DataPayload { data, cart: Self::share_cart(&self.cart) }),
            Err(e) => Err(e),
        }
    }

    /// Converts the payload to another marker that names the same view
    /// type. Nothing is computed: view and storage handle stay as they are.
    pub fn cast<M2>(self) -> (r: DataPayload<M2>)
        where M2: DataMarker<Yokeable = M::Yokeable>
        ensures
            r@ == self@,
            r.cart() == self.cart(),
    {
        DataPayload { data: self.data, cart: self.cart }
    }

    /// Another handle to the storage behind `cart`, if there is one.
    fn share_cart(cart: &Option<Cart>) -> (r: Option<Cart>)
        ensures
            r == *cart,
    {
        match cart {
            Some(cart) => Some(cart.clone()),
            None => None,
        }
    }
}

impl DataPayload<BufferMarker> {
    /// Makes a payload from an owned byte buffer: the buffer goes behind a
    /// fresh storage handle, and the view is a slice of all of its bytes.
    pub fn from_owned_buffer(buffer: Box<[u8]>) -> (r: Self)
        ensures
            r@@ == buffer@,
            r@.cart() == Some(buffer@),
            r.is_attached_to(buffer@),
    {
        let cart = Cart::new(buffer);
        let yoke = YokedBuffer::attach(rc_share(&cart.storage));
        DataPayload { data: yoke, cart: Some(cart) }
    }

    /// Makes a payload from a byte slice that is already yoked to its
    /// storage. The payload is attached to the storage of the yoke, or to
    /// none if the yoke has none.
    pub fn from_yoked_buffer(yoke: YokedBuffer) -> (r: Self)
        ensures
            r@ == yoke,
            r.storage() == yoke.cart(),
    {
        let cart = match yoke.backing_cart() {
            Some(storage) => Some(Cart { storage: rc_share(storage) }),
            None => None,
        };
        DataPayload { data: yoke, cart }
    }

    /// Makes a payload from a byte slice that lives as long as the program.
    /// No storage handle is needed.
    pub fn from_static_buffer(buffer: &'static [u8]) -> (r: Self)
        ensures
            r@@ == buffer@,
            r@.cart() is None,
            r.cart() is None,
    {
        DataPayload { data: YokedBuffer::new_static(buffer), cart: None }
    }
}

impl<M: DataMarker> Clone for DataPayload<M> where M::Yokeable: Clone {
    /// Clones the view and takes another handle to the same storage.
    fn clone(&self) -> (r: Self)
        ensures
            r.is_clone_of(self),
    {
        DataPayload { data: self.data.clone(), cart: Self::share_cart(&self.cart) }
    }
}

impl<M: DataMarker> PartialEq for DataPayload<M> where M::Yokeable: PartialEq {
    /// Two payloads are equal when their views are; storage is not compared.
    fn eq(&self, other: &Self) -> (r: bool) {
        self.data == other.data
    }
}

impl<M: DataMarker> Eq for DataPayload<M> where M::Yokeable: Eq {}

impl<M: DataMarker> vstd::std_specs::cmp::PartialEqSpecImpl for DataPayload<M> where M::Yokeable: PartialEq {
    open spec fn obeys_eq_spec() -> bool {
        M::Yokeable::obeys_eq_spec()
    }

    open spec fn eq_spec(&self, other: &Self) -> bool {
        PartialEqSpec::eq_spec(&self@, &other@)
    }
}

impl<M: DataMarker> Default for DataPayload<M> where M::Yokeable: Default {
    /// The payload that owns the default view.
    fn default() -> (r: Self)
        ensures
            M::Yokeable::default.ensures((), r@),
            r.cart() is None,
    {
        Self::from_owned(Default::default())
    }
}

impl<M: DataMarker> core::fmt::Debug for DataPayload<M> where M::Yokeable: core::fmt::Debug {
    /// Calls the `fmt` of the view: a payload prints as its view does.
    #[verifier::external_body]
    fn fmt(&self, f: &mut core::fmt::Formatter<'_>) -> core::fmt::Result {
        self.data.fmt(f)
    }
}

/// A payload, if one was loaded, next to metadata about the lookup.
pub struct DataResponse<M: DataMarker> {
    /// Metadata about the returned object.
    pub metadata: DataResponseMetadata,
    /// The object itself; `None` if it was not loaded.
    pub payload: Option<DataPayload<M>>,
}

impl<M: DataMarker> DataResponse<M> {
    /// What taking the payload gives: the payload if there is one, else an
    /// error of kind [`DataErrorKind::MissingPayload`] that names the marker.
    pub open spec fn spec_take_payload(self) -> Result<DataPayload<M>, DataError> {
        match self.payload {
            Some(payload) => Ok(payload),
            None => Err(DataErrorKind::MissingPayload.spec_with_str_context(M::NAME)),
        }
    }

    /// What taking metadata and payload gives: both if there is a payload,
    /// else an error of kind [`DataErrorKind::MissingPayload`] that names
    /// the marker.
    pub open spec fn spec_take_metadata_and_payload(self) -> Result<
        (DataResponseMetadata, DataPayload<M>),
        DataError,
    > {
        match self.payload {
            Some(payload) => Ok((self.metadata, payload)),
            None => Err(DataErrorKind::MissingPayload.spec_with_str_context(M::NAME)),
        }
    }

    /// Takes the payload out of the response. Fails if there is none.
    ///
    /// To take the metadata too, use
    /// [`take_metadata_and_payload`](Self::take_metadata_and_payload).
    #[verifier::when_used_as_spec(spec_take_payload)]
    pub fn take_payload(self) -> (r: Result<DataPayload<M>, DataError>)
        ensures
            r == self.spec_take_payload(),
    {
        match self.take_metadata_and_payload() {
            Ok((_, payload)) => Ok(payload),
            Err(e) => Err(e),
        }
    }

    /// Takes metadata and payload out of the response. Fails if there is
    /// no payload.
    #[verifier::when_used_as_spec(spec_take_metadata_and_payload)]
    pub fn take_metadata_and_payload(self) -> (r: Result<
        (DataResponseMetadata, DataPayload<M>),
        DataError,
    >)
        ensures
            r == self.spec_take_metadata_and_payload(),
    {
        match self.payload {
            Some(payload) => Ok((self.metadata, payload)),
            None => Err(DataErrorKind::MissingPayload.with_type_context::<M>()),
        }
    }
}

impl<M: DataMarker> TryFrom<DataResponse<M>> for DataPayload<M> {
    type Error = DataError;

    fn try_from(response: DataResponse<M>) -> (r: Result<Self, DataError>) {
        response.take_payload()
    }
}

impl<M: DataMarker> vstd::std_specs::convert::TryFromSpecImpl<DataResponse<M>> for DataPayload<M> {
    open spec fn obeys_try_from_spec() -> bool {
        true
    }

    open spec fn try_from_spec(response: DataResponse<M>) -> Result<Self, DataError> {
        response.spec_take_payload()
    }
}

impl<M: DataMarker> Clone for DataResponse<M> where M::Yokeable: Clone {
    /// Clones the metadata and, if there is one, the payload.
    fn clone(&self) -> (r: Self)
        ensures
            r.metadata == self.metadata,
            match (self.payload, r.payload) {
                (Some(a), Some(b)) => b.is_clone_of(&a),
                (None, None) => true,
                _ => false,
            },
    {
        let payload = match &self.payload {
            Some(payload) => Some(payload.clone()),
            None => None,
        };
        DataResponse { metadata: self.metadata.clone(), payload }
    }
}

impl<M: DataMarker> PartialEq for DataResponse<M> where M::Yokeable: PartialEq {
    /// Two responses are equal when their metadata and their payloads are.
    fn eq(&self, other: &Self) -> (r: bool) {
        let same_payload = match (&self.payload, &other.payload) {
            (Some(a), Some(b)) => a == b,
            (None, None) => true,
            _ => false,
        };
        self.metadata == other.metadata && same_payload
    }
}

impl<M: DataMarker> vstd::std_specs::cmp::PartialEqSpecImpl for DataResponse<M> where M::Yokeable: PartialEq {
    open spec fn obeys_eq_spec() -> bool {
        M::Yokeable::obeys_eq_spec()
    }

    open spec fn eq_spec(&self, other: &Self) -> bool {
        &&& PartialEqSpec::eq_spec(&self.metadata, &other.metadata)
        &&& match (self.payload, other.payload) {
            (Some(a), Some(b)) => PartialEqSpec::eq_spec(&a, &b),
            (None, None) => true,
            _ => false,
        }
    }
}

impl<M: DataMarker> core::fmt::Debug for DataResponse<M> where M::Yokeable: core::fmt::Debug {
    /// Writes the metadata and the payload with `write!`, each as its own
    /// `Debug` prints it.
    #[verifier::external_body]
    fn fmt(&self, f: &mut core::fmt::Formatter<'_>) -> core::fmt::Result {
        write!(
            f,
            "DataResponse {{ metadata: {:?}, payload: {:?} }}",
            self.metadata, self.payload
        )
    }
}

/// Reclaiming the view of a payload that was made from an owned value
/// gives that value back.
pub proof fn lemma_owned_round_trip<M: DataMarker>(data: M::Yokeable)
    ensures
        DataPayload::<M>::from_owned(data).try_unwrap_owned() == Ok::<M::Yokeable, DataError>(data),
{
}

/// A payload that is attached to storage does not give up its view:
/// whatever the bytes and whatever the view that was derived from them,
/// reclaiming fails with [`DataErrorKind::InvalidState`].
pub proof fn lemma_attached_unwrap_fails<M: DataMarker>(payload: DataPayload<M>, bytes: Seq<u8>)
    requires
        payload.is_attached_to(bytes),
    ensures
        payload.try_unwrap_owned() == Err::<M::Yokeable, DataError>(
            DataErrorKind::InvalidState.with_str_context("try_unwrap_owned"),
        ),
{
}

/// Mutating a payload does not reach its clones.
///
/// Let `copy` be a clone of `before`, and let `after` be what `before`
/// became when `f` mutated its view. Then `copy` is still a clone of the
/// view that `before` had, whatever `f` did, and `copy` and `after` are
/// attached to the same storage with the same bytes: what a payload shares
/// with its clones is the handle, and mutation does not write through it.
pub proof fn lemma_mutation_leaves_clone<M, F>(
    before: DataPayload<M>,
    copy: DataPayload<M>,
    after: DataPayload<M>,
    f: F,
)
    where
        M: DataMarker,
        M::Yokeable: Clone,
        F: for<'b> FnOnce(&'b mut M::Yokeable),
    requires
        copy.is_clone_of(&before),
        after.cart() == before.cart(),
        exists|m: &mut M::Yokeable|
            mut_ref_current(m) == before@ && mut_ref_future(m) == after@ && call_ensures(
                f,
                (m,),
                (),
            ),
    ensures
        copy.is_clone_of(&before),
        copy.cart() == after.cart(),
        copy.storage() == after.storage(),
{
}

/// A response without a payload gives an error of kind
/// [`DataErrorKind::MissingPayload`] from both ways of taking the payload,
/// whatever its metadata.
pub proof fn lemma_missing_payload<M: DataMarker>(response: DataResponse<M>)
    requires
        response.payload is None,
    ensures
        response.take_payload() == Err::<DataPayload<M>, DataError>(
            DataErrorKind::MissingPayload.with_str_context(M::NAME),
        ),
        response.take_metadata_and_payload() == Err::<
            (DataResponseMetadata, DataPayload<M>),
            DataError,
        >(DataErrorKind::MissingPayload.with_str_context(M::NAME)),
{
}

} // verus!
