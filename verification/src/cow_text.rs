//! Copy-on-write text as a monoid.
//!
//! A [`CowText`] value is either a borrowed view of text that lives elsewhere
//! or an owned buffer. Both forms model the same thing, the character content,
//! and the monoid operation is plain concatenation: combining materializes an
//! owned buffer from the first operand, appends the second operand's content,
//! and returns the result in owned form. The instance therefore agrees with
//! the plain text instance on every pair of inputs, which
//! [`lemma_agrees_with_text`] states.

use crate::Monoid;
use vstd::prelude::*;
use vstd::string::StringExecFns;

verus! {

/// A text value that either borrows existing data or owns its buffer.
///
/// Equality compares the character content alone, so two values with equal
/// content are equal whichever form each of them is in.
#[derive(Debug)]
pub enum CowText<'a> {
    /// A borrowed view of text that lives elsewhere.
    Borrowed(&'a str),
    /// An owned buffer.
    Owned(String),
}

impl<'a> CowText<'a> {
    /// The character content, whichever form the value is in.
    pub open spec fn content(self) -> Seq<char> {
        match self {
            CowText::Borrowed(s) => s@,
            CowText::Owned(s) => s@,
        }
    }

    /// Wraps a borrowed view, copying nothing.
    pub fn borrowed(s: &'a str) -> (r: CowText<'a>)
        ensures
            r.content() == s@,
    {
        CowText::Borrowed(s)
    }

    /// Wraps an owned buffer, copying nothing.
    pub fn owned(s: String) -> (r: CowText<'a>)
        ensures
            r.content() == s@,
    {
        CowText::Owned(s)
    }

    /// Materializes an owned buffer, copying only when the value was
    /// borrowed. The content is kept unchanged: together with
    /// [`lemma_borrow_round_trip`] this says that a borrowed view taken
    /// through the owned form reads back as exactly the original text.
    pub fn into_owned(self) -> (r: String)
        ensures
            r@ == self.content(),
    {
        match self {
            CowText::Borrowed(s) => s.to_owned(),
            CowText::Owned(s) => s,
        }
    }

    /// A fresh owned copy of the content, leaving the value in place.
    pub fn to_text(&self) -> (r: String)
        ensures
            r@ == self.content(),
    {
        match self {
            CowText::Borrowed(s) => (*s).to_owned(),
            CowText::Owned(s) => s.clone(),
        }
    }
}

impl<'a> PartialEq for CowText<'a> {
    fn eq(&self, other: &CowText<'a>) -> (r: bool) {
        let a = self.to_text();
        let b = other.to_text();
        a == b
    }
}

impl<'a> vstd::std_specs::cmp::PartialEqSpecImpl for CowText<'a> {
    open spec fn obeys_eq_spec() -> bool {
        true
    }

    open spec fn eq_spec(&self, other: &CowText<'a>) -> bool {
        self.content() == other.content()
    }
}

impl<'a> Monoid for CowText<'a> {
    type M = Seq<char>;

    open spec fn model(self) -> Seq<char> {
        self.content()
    }

    open spec fn id_spec() -> Seq<char> {
        Seq::empty()
    }

    open spec fn combine_spec(a: Seq<char>, b: Seq<char>) -> Seq<char> {
        a + b
    }

    fn id() -> (r: Self) {
        proof {
            reveal_strlit("");
            assert(""@ =~= Seq::<char>::empty());
        }
        CowText::Borrowed("")
    }

    fn op(self, other: Self) -> (r: Self) {
        let mut buf = self.into_owned();
        match other {
            CowText::Borrowed(s) => buf.append(s),
            CowText::Owned(s) => buf.append(s.as_str()),
        }
        CowText::Owned(buf)
    }

    proof fn lemma_id_left(v: Seq<char>) {
        assert(Seq::<char>::empty() + v =~= v);
    }

    proof fn lemma_id_right(v: Seq<char>) {
        assert(v + Seq::<char>::empty() =~= v);
    }

    proof fn lemma_assoc(a: Seq<char>, b: Seq<char>, c: Seq<char>) {
        assert((a + b) + c =~= a + (b + c));
    }
}

/// The copy-on-write instance agrees with the plain text instance: the two
/// have the same identity and the same combining operation on character
/// content, so on equal inputs they produce results with equal content.
pub proof fn lemma_agrees_with_text(a: Seq<char>, b: Seq<char>)
    ensures
        <CowText<'static> as Monoid>::combine_spec(a, b) == <String as Monoid>::combine_spec(a, b),
        <CowText<'static> as Monoid>::id_spec() == <String as Monoid>::id_spec(),
{
}

/// Round trip: a borrowed view has exactly the borrowed text as its content,
/// and [`CowText::into_owned`] keeps content unchanged, so materializing a
/// borrowed view and reading the owned buffer back yields the original text.
pub proof fn lemma_borrow_round_trip(s: &str)
    ensures
        CowText::Borrowed(s).content() == s@,
{
}

} // verus!
