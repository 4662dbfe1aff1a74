//! Capability traits that an element type supplies to take part in matrix
//! arithmetic.
use vstd::prelude::*;

verus! {

/// An additive identity.
pub trait Zero: Sized {
    /// The additive identity of the type.
    spec fn spec_zero() -> Self;

    fn zero() -> (r: Self)
        ensures
            r == Self::spec_zero(),
    ;
}

/// A multiplicative identity.
pub trait One: Sized {
    /// The multiplicative identity of the type.
    spec fn spec_one() -> Self;

    fn one() -> (r: Self)
        ensures
            r == Self::spec_one(),
    ;
}

/// Addition, subtraction and multiplication that never fail, with the laws
/// that the matrix engine relies on.
///
/// Fixed-width integers implement it as the ring of integers modulo `2^bits`
/// (Rust's wrapping operations): every operation is total and the laws hold
/// exactly.
pub trait Ring: Zero + One + Copy {
    spec fn spec_add(a: Self, b: Self) -> Self;

    spec fn spec_sub(a: Self, b: Self) -> Self;

    spec fn spec_mul(a: Self, b: Self) -> Self;

    fn plus(&self, other: &Self) -> (r: Self)
        ensures
            r == Self::spec_add(*self, *other),
    ;

    fn minus(&self, other: &Self) -> (r: Self)
        ensures
            r == Self::spec_sub(*self, *other),
    ;

    fn times(&self, other: &Self) -> (r: Self)
        ensures
            r == Self::spec_mul(*self, *other),
    ;

    fn is_zero(&self) -> (r: bool)
        ensures
            r == (*self == Self::spec_zero()),
    ;

    proof fn lemma_add_commutative(a: Self, b: Self)
        ensures
            Self::spec_add(a, b) == Self::spec_add(b, a),
    ;

    proof fn lemma_add_associative(a: Self, b: Self, c: Self)
        ensures
            Self::spec_add(Self::spec_add(a, b), c) == Self::spec_add(a, Self::spec_add(b, c)),
    ;

    /// Adding or subtracting zero changes nothing.
    proof fn lemma_zero_neutral(a: Self)
        ensures
            Self::spec_add(a, Self::spec_zero()) == a,
            Self::spec_add(Self::spec_zero(), a) == a,
            Self::spec_sub(a, Self::spec_zero()) == a,
    ;

    /// Zero absorbs a product on either side.
    proof fn lemma_mul_zero(a: Self)
        ensures
            Self::spec_mul(a, Self::spec_zero()) == Self::spec_zero(),
            Self::spec_mul(Self::spec_zero(), a) == Self::spec_zero(),
    ;

    /// One is neutral for a product on either side.
    proof fn lemma_mul_one(a: Self)
        ensures
            Self::spec_mul(a, Self::spec_one()) == a,
            Self::spec_mul(Self::spec_one(), a) == a,
    ;
}

} // verus!
