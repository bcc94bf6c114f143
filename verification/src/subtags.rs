//! Variant subtags of a locale identifier and lists of them.

use vstd::prelude::*;
use vstd::string::StringExecFns;

verus! {

broadcast use vstd::function::group_function_axioms;

/// Whether `a` comes before `b` when texts are compared character by
/// character, a proper prefix coming before any of its extensions.
pub open spec fn text_lt(a: Seq<char>, b: Seq<char>) -> bool
    decreases a.len(),
{
    if b.len() == 0 {
        false
    } else if a.len() == 0 {
        true
    } else if a[0] != b[0] {
        (a[0] as u32) < (b[0] as u32)
    } else {
        text_lt(a.drop_first(), b.drop_first())
    }
}

/// No text comes before itself.
pub proof fn lemma_text_lt_irreflexive(a: Seq<char>)
    ensures
        !text_lt(a, a),
    decreases a.len(),
{
    if a.len() > 0 {
        lemma_text_lt_irreflexive(a.drop_first());
    }
}

/// Whether `f` may be called on every string that reads `text`.
pub open spec fn accepts_text<E, F: FnMut(&str) -> Result<(), E>>(f: F, text: Seq<char>) -> bool {
    forall|s: &str| s@ == text ==> call_requires(f, (s,))
}

/// Whether `f` may return `out` when it is called on a string that reads
/// `text`.
pub open spec fn gives_on_text<E, F: FnMut(&str) -> Result<(), E>>(
    f: F,
    text: Seq<char>,
    out: Result<(), E>,
) -> bool {
    exists|s: &str| s@ == text && call_ensures(f, (s,), out)
}

/// The texts joined by hyphens, as a list of subtags is written:
/// `["macos", "posix"]` gives `macos-posix`, and no text gives the empty
/// string.
pub open spec fn joined(texts: Seq<Seq<char>>) -> Seq<char>
    decreases texts.len(),
{
    if texts.len() == 0 {
        Seq::empty()
    } else if texts.len() == 1 {
        texts[0]
    } else {
        joined(texts.drop_last()) + seq!['-'] + texts.last()
    }
}

/// A variant subtag, such as `posix` or `macos`.
///
/// The subtag is held as text. Whether the text is a well-formed subtag
/// is for the parser of locale identifiers to decide, not for this type.
#[derive(Debug, Hash, PartialOrd, Ord)]
pub struct Variant {
    text: String,
}

impl View for Variant {
    type V = Seq<char>;

    closed spec fn view(&self) -> Seq<char> {
        self.text@
    }
}

impl Variant {
    /// Makes a variant subtag from its text.
    pub fn from_text(text: String) -> (r: Self)
        ensures
            r@ == text@,
    {
        Variant { text }
    }

    /// The text of the subtag.
    pub fn as_str(&self) -> (r: &str)
        ensures
            r@ == self@,
    {
        self.text.as_str()
    }
}

impl Clone for Variant {
    fn clone(&self) -> (r: Self)
        ensures
            r == *self,
    {
        Variant { text: self.text.clone() }
    }
}

impl PartialEq for Variant {
    fn eq(&self, other: &Self) -> (r: bool) {
        self.text == other.text
    }
}

impl Eq for Variant {}

impl vstd::std_specs::cmp::PartialEqSpecImpl for Variant {
    open spec fn obeys_eq_spec() -> bool {
        true
    }

    open spec fn eq_spec(&self, other: &Self) -> bool {
        self@ == other@
    }
}

/// The texts of the subtags in `items`, in the same order.
pub open spec fn texts(items: Seq<Variant>) -> Seq<Seq<char>> {
    Seq::new(items.len(), |i: int| items[i]@)
}

/// A list of variant subtags, such as `["macos", "posix"]`.
///
/// The list is meant to be kept in canonical form: sorted, with no subtag
/// twice. [`Variants::is_canonical`] says whether it is.
#[derive(Debug, Hash, PartialOrd, Ord)]
pub struct Variants(Vec<Variant>);

impl View for Variants {
    type V = Seq<Seq<char>>;

    /// The texts of the subtags, in the order in which the list holds them.
    closed spec fn view(&self) -> Seq<Seq<char>> {
        texts(self.0@)
    }
}

impl Variants {
    /// Whether `texts` is strictly increasing, which is to say sorted and
    /// free of duplicates.
    pub open spec fn strictly_increasing(texts: Seq<Seq<char>>) -> bool {
        forall|i: int, j: int| 0 <= i < j < texts.len() ==> text_lt(texts[i], texts[j])
    }

    /// Whether the list is in canonical form.
    pub open spec fn is_canonical(&self) -> bool {
        Self::strictly_increasing(self@)
    }

    /// Returns a new empty list of variants.
    pub fn new() -> (r: Self)
        ensures
            r@ == Seq::<Seq<char>>::empty(),
            r.is_canonical(),
    {
        let r = Variants(Vec::new());
        assert(r@ =~= Seq::<Seq<char>>::empty());
        r
    }

    /// Makes a list that holds the single subtag `variant`.
    pub fn from_variant(variant: Variant) -> (r: Self)
        ensures
            r@ == seq![variant@],
            r.is_canonical(),
    {
        let mut items: Vec<Variant> = Vec::new();
        items.push(variant);
        let r = Variants(items);
        assert(r@ =~= seq![variant@]);
        r
    }

    /// Makes a list from a vector of subtags, which is taken as it is.
    ///
    /// The caller is expected to hand in a vector that is sorted and holds
    /// no subtag twice; the list is canonical exactly if it does.
    pub fn from_vec_unchecked(input: Vec<Variant>) -> (r: Self)
        ensures
            r@ == texts(input@),
            r.is_canonical() <==> Self::strictly_increasing(texts(input@)),
    {
        Variants(input)
    }

    /// Empties the list and returns what it held.
    pub fn clear(&mut self) -> (r: Self)
        ensures
            r@ == old(self)@,
            final(self)@ == Seq::<Seq<char>>::empty(),
            final(self).is_canonical(),
    {
        let mut items: Vec<Variant> = Vec::new();
        core::mem::swap(&mut items, &mut self.0);
        assert(self@ =~= Seq::<Seq<char>>::empty());
        Variants(items)
    }

    /// Calls `f` on the text of each subtag in order, and stops at the
    /// first error, which it returns.
    pub fn for_each_subtag_str<E, F>(&self, f: &mut F) -> (r: Result<(), E>)
        where F: FnMut(&str) -> Result<(), E>
        requires
            forall|i: int| 0 <= i < self@.len() ==> #[trigger] accepts_text(*old(f), self@[i]),
        ensures
            match r {
                Ok(()) => forall|i: int|
                    0 <= i < self@.len() ==> #[trigger] gives_on_text(
                        *old(f),
                        self@[i],
                        Ok::<(), E>(()),
                    ),
                Err(e) => exists|k: int|
                    0 <= k < self@.len() && #[trigger] gives_on_text(
                        *old(f),
                        self@[k],
                        Err::<(), E>(e),
                    ) && forall|i: int|
                        0 <= i < k ==> #[trigger] gives_on_text(
                            *old(f),
                            self@[i],
                            Ok::<(), E>(()),
                        ),
            },
    {
        let mut i: usize = 0;
        while i < self.0.len()
            invariant
                i <= self.0.len(),
                *f == *old(f),
                forall|i: int| 0 <= i < self@.len() ==> #[trigger] accepts_text(*old(f), self@[i]),
                forall|j: int|
                    0 <= j < i ==> #[trigger] gives_on_text(*old(f), self@[j], Ok::<(), E>(())),
            decreases self.0.len() - i,
        {
            let text = self.0[i].as_str();
            assert(accepts_text(*old(f), self@[i as int]));
            let out = f(text);
            assert(gives_on_text(*old(f), self@[i as int], out));
            match out {
                Ok(done) => {
                    assert(out == Ok::<(), E>(done));
                },
                Err(e) => {
                    return Err(e);
                },
            }
            i += 1;
        }
        Ok(())
    }

    /// Writes the list as text: the subtags in order, with a hyphen between
    /// each two.
    pub fn to_string(&self) -> (r: String)
        ensures
            r@ == joined(self@),
    {
        let mut out = String::new();
        let mut i: usize = 0;
        assert(self@.take(0) =~= Seq::<Seq<char>>::empty());
        while i < self.0.len()
            invariant
                i <= self.0.len(),
                self.0.len() == self@.len(),
                out@ == joined(self@.take(i as int)),
            decreases self.0.len() - i,
        {
            let ghost before = out@;
            if i > 0 {
                proof {
                    reveal_strlit("-");
                }
                out.append("-");
                assert(out@ =~= before + seq!['-']);
            }
            let text = self.0[i].as_str();
            out.append(text);
            proof {
                let next = self@.take(i as int + 1);
                assert(next.drop_last() =~= self@.take(i as int));
                if i == 0 {
                    assert(out@ =~= next[0]);
                }
            }
            i += 1;
        }
        assert(self@.take(i as int) =~= self@);
        out
    }
}

/// A canonical list holds no subtag twice.
pub proof fn lemma_canonical_has_no_duplicates(variants: Variants, i: int, j: int)
    requires
        variants.is_canonical(),
        0 <= i < variants@.len(),
        0 <= j < variants@.len(),
        i != j,
    ensures
        variants@[i] != variants@[j],
{
    lemma_text_lt_irreflexive(variants@[i]);
    if i < j {
        assert(text_lt(variants@[i], variants@[j]));
    } else {
        assert(text_lt(variants@[j], variants@[i]));
    }
}

impl Clone for Variants {
    fn clone(&self) -> (r: Self)
        ensures
            r@ == self@,
    {
        let mut items: Vec<Variant> = Vec::new();
        let mut i: usize = 0;
        while i < self.0.len()
            invariant
                i <= self.0.len(),
                items@.len() == i,
                forall|j: int| 0 <= j < i ==> items@[j] == self.0@[j],
            decreases self.0.len() - i,
        {
            items.push(self.0[i].clone());
            i += 1;
        }
        let r = Variants(items);
        assert(r@ =~= self@);
        r
    }
}

impl PartialEq for Variants {
    fn eq(&self, other: &Self) -> (r: bool) {
        if self.0.len() != other.0.len() {
            assert(self@.len() != other@.len());
            return false;
        }
        let mut i: usize = 0;
        while i < self.0.len()
            invariant
                i <= self.0.len(),
                self.0.len() == other.0.len(),
                forall|j: int| 0 <= j < i ==> self@[j] == other@[j],
            decreases self.0.len() - i,
        {
            if !(self.0[i] == other.0[i]) {
                assert(self@[i as int] != other@[i as int]);
                return false;
            }
            i += 1;
        }
        assert(self@ =~= other@);
        true
    }
}

impl Eq for Variants {}

impl vstd::std_specs::cmp::PartialEqSpecImpl for Variants {
    open spec fn obeys_eq_spec() -> bool {
        true
    }

    open spec fn eq_spec(&self, other: &Self) -> bool {
        self@ == other@
    }
}

impl core::ops::Deref for Variants {
    type Target = [Variant];

    /// The subtags of the list, in order.
    fn deref(&self) -> (r: &[Variant])
        ensures
            texts(r@) == self@,
    {
        self.0.as_slice()
    }
}

impl Default for Variants {
    fn default() -> (r: Self)
        ensures
            r@ == Seq::<Seq<char>>::empty(),
    {
        Variants::new()
    }
}

} // verus!
