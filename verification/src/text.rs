//! Text as a monoid: the operation is concatenation and the identity is the
//! empty text.
//!
//! The model of a text value is its sequence of characters, so the contract of
//! [`Monoid::op`] says exactly that the result is the first operand's
//! characters immediately followed by the second operand's characters, with
//! nothing inserted between them.

use crate::Monoid;
use vstd::prelude::*;
use vstd::string::StringExecFns;

verus! {

impl Monoid for String {
    type M = Seq<char>;

    open spec fn model(self) -> Seq<char> {
        self@
    }

    open spec fn id_spec() -> Seq<char> {
        Seq::empty()
    }

    open spec fn combine_spec(a: Seq<char>, b: Seq<char>) -> Seq<char> {
        a + b
    }

    fn id() -> (r: Self) {
        String::new()
    }

    fn op(self, other: String) -> (r: String) {
        self.concat(other.as_str())
    }

    proof fn lemma_id_left(v: Seq<char>) {
        assert(Seq::<char>::empty() + v =~= v);
    }

    proof fn lemma_id_right(v: Seq<char>) {
        assert(v + Seq::<char>::empty() =~= v);
    }

    proof fn lemma_assoc(a: Seq<char>, b: Seq<char>, c: Seq<char>) {
        assert((a + b) + c =~= a + (b + c));
    }
}

} // verus!
