//! Monoids over text and optional values.
//!
//! A monoid is a type with a designated identity element and an associative
//! binary combining operation. This crate defines the [`Monoid`] trait and
//! three conforming instances:
//!
//! * [`String`], under concatenation, with the empty text as identity
//!   (see [`text`]);
//! * [`cow_text::CowText`], a text value that is either a borrowed view of
//!   existing data or an owned buffer, with the same concatenation semantics
//!   (see [`cow_text`]);
//! * `Option<A>` for any monoid `A`, which lifts the inner operation and uses
//!   `None` as identity (see [`option_lift`]).
//!
//! Each instance carries machine-checked proofs of the monoid laws: the trait
//! itself demands them, so a type cannot conform without proving identity and
//! associativity over its model.

use vstd::prelude::*;

pub mod cow_text;
pub mod option_lift;
pub mod text;

verus! {

/// A type with an identity element and an associative combining operation.
///
/// Every implementation chooses a mathematical model for its values (the
/// associated type [`M`](Monoid::M) together with [`model`](Monoid::model))
/// and describes the identity element and the combining operation over that
/// model. The monoid laws are obligations on every implementation: the three
/// proof methods must be proved, so an instance cannot merely claim them.
pub trait Monoid: Sized {
    /// The mathematical model over which the laws are stated.
    type M;

    /// What a value of this type means mathematically.
    spec fn model(self) -> Self::M;

    /// The model of the identity element.
    spec fn id_spec() -> Self::M;

    /// What combining two values does, stated on models.
    spec fn combine_spec(a: Self::M, b: Self::M) -> Self::M;

    /// The identity element.
    fn id() -> (r: Self)
        ensures
            r.model() == Self::id_spec(),
    ;

    /// The combining operation: consumes both operands and returns their
    /// combination.
    fn op(self, other: Self) -> (r: Self)
        ensures
            r.model() == Self::combine_spec(self.model(), other.model()),
    ;

    /// Identity law, left: combining the identity with any value leaves that
    /// value unchanged.
    proof fn lemma_id_left(v: Self::M)
        ensures
            Self::combine_spec(Self::id_spec(), v) == v,
    ;

    /// Identity law, right: combining any value with the identity leaves that
    /// value unchanged.
    proof fn lemma_id_right(v: Self::M)
        ensures
            Self::combine_spec(v, Self::id_spec()) == v,
    ;

    /// Associativity law: how repeated combinations are grouped does not
    /// affect the result.
    proof fn lemma_assoc(a: Self::M, b: Self::M, c: Self::M)
        ensures
            Self::combine_spec(Self::combine_spec(a, b), c) == Self::combine_spec(
                a,
                Self::combine_spec(b, c),
            ),
    ;
}

} // verus!
