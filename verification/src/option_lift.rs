//! Optional values as a monoid: any monoid lifts to its optional type.
//!
//! The absent value is the identity. Combining an absent operand with
//! anything yields the other operand unchanged; combining two present
//! operands wraps the inner combination. The laws of the lifted instance
//! follow from the laws of the inner one, which the proofs here use.

use crate::Monoid;
use vstd::prelude::*;

verus! {

impl<A: Monoid> Monoid for Option<A> {
    type M = Option<A::M>;

    open spec fn model(self) -> Option<A::M> {
        match self {
            None => None,
            Some(a) => Some(a.model()),
        }
    }

    open spec fn id_spec() -> Option<A::M> {
        None
    }

    open spec fn combine_spec(a: Option<A::M>, b: Option<A::M>) -> Option<A::M> {
        match (a, b) {
            (None, y) => y,
            (x, None) => x,
            (Some(x), Some(y)) => Some(A::combine_spec(x, y)),
        }
    }

    fn id() -> (r: Self) {
        None
    }

    fn op(self, other: Self) -> (r: Self) {
        match (self, other) {
            (None, b) => b,
            (a, None) => a,
            (Some(a), Some(b)) => Some(a.op(b)),
        }
    }

    proof fn lemma_id_left(v: Option<A::M>) {
    }

    proof fn lemma_id_right(v: Option<A::M>) {
    }

    proof fn lemma_assoc(a: Option<A::M>, b: Option<A::M>, c: Option<A::M>) {
        match (a, b, c) {
            (Some(x), Some(y), Some(z)) => A::lemma_assoc(x, y, z),
            _ => (),
        }
    }
}

/// Absorption of the absent value: combining a present value with the absent
/// value, on either side, yields the present value unchanged.
pub proof fn lemma_absent_absorbed<A: Monoid>(x: A::M)
    ensures
        <Option<A> as Monoid>::combine_spec(Some(x), None) == Some(x),
        <Option<A> as Monoid>::combine_spec(None, Some(x)) == Some(x),
{
}

/// Two absent values combine to the absent value.
pub proof fn lemma_absent_with_absent<A: Monoid>()
    ensures
        <Option<A> as Monoid>::combine_spec(None, None) == None::<A::M>,
{
}

/// Two present values combine to the present combination of the wrapped
/// values: the lifted operation is the inner operation under the wrapper.
pub proof fn lemma_present_lifts<A: Monoid>(x: A::M, y: A::M)
    ensures
        <Option<A> as Monoid>::combine_spec(Some(x), Some(y)) == Some(A::combine_spec(x, y)),
{
}

} // verus!
