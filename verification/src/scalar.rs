//! The arithmetic capability that a vector element must supply: a zero
//! element, addition and multiplication, each with a specification, together
//! with the algebraic laws the vector kernel's contracts rest on.

use vstd::prelude::*;
use vstd::arithmetic::mul::lemma_mul_is_commutative;

verus! {

/// A copyable numeric element type.
///
/// `add_spec` and `mul_spec` say what the executable `add` and `mul` return;
/// `add_in_range` and `mul_in_range` say on which operand pairs the executable
/// operations are defined (for a fixed-width integer: where the exact result
/// fits in the type). The three proof obligations are the laws every
/// implementation must establish: multiplication commutes, zero absorbs under
/// multiplication, and zero is additively neutral — exactly what is needed for
/// the dot product's commutativity and its zero-vector behaviour.
pub trait Scalar: Sized + Copy {
    /// The zero element.
    spec fn zero_spec() -> Self;

    /// The value `add` returns when `add_in_range` holds.
    spec fn add_spec(self, other: Self) -> Self;

    /// The value `mul` returns when `mul_in_range` holds.
    spec fn mul_spec(self, other: Self) -> Self;

    /// The operand pairs on which `add` is defined.
    spec fn add_in_range(self, other: Self) -> bool;

    /// The operand pairs on which `mul` is defined.
    spec fn mul_in_range(self, other: Self) -> bool;

    /// Multiplication commutes, both in its value and in its domain.
    proof fn lemma_mul_commutes(x: Self, y: Self)
        ensures
            x.mul_spec(y) == y.mul_spec(x),
            x.mul_in_range(y) == y.mul_in_range(x),
    ;

    /// Zero multiplied with anything is defined and yields zero.
    proof fn lemma_zero_mul(x: Self)
        ensures
            Self::zero_spec().mul_in_range(x),
            Self::zero_spec().mul_spec(x) == Self::zero_spec(),
    ;

    /// Zero added to zero is defined and yields zero.
    proof fn lemma_zero_add()
        ensures
            Self::zero_spec().add_in_range(Self::zero_spec()),
            Self::zero_spec().add_spec(Self::zero_spec()) == Self::zero_spec(),
    ;

    /// The zero element, as a runtime value.
    fn zero() -> (r: Self)
        ensures
            r == Self::zero_spec(),
    ;

    /// Addition.
    fn add(self, other: Self) -> (r: Self)
        requires
            self.add_in_range(other),
        ensures
            r == self.add_spec(other),
    ;

    /// Multiplication.
    fn mul(self, other: Self) -> (r: Self)
        requires
            self.mul_in_range(other),
        ensures
            r == self.mul_spec(other),
    ;
}

impl Scalar for i64 {
    open spec fn zero_spec() -> i64 {
        0i64
    }

    open spec fn add_spec(self, other: i64) -> i64 {
        (self + other) as i64
    }

    open spec fn mul_spec(self, other: i64) -> i64 {
        (self * other) as i64
    }

    open spec fn add_in_range(self, other: i64) -> bool {
        i64::MIN <= self + other <= i64::MAX
    }

    open spec fn mul_in_range(self, other: i64) -> bool {
        i64::MIN <= self * other <= i64::MAX
    }

    proof fn lemma_mul_commutes(x: i64, y: i64) {
        lemma_mul_is_commutative(x as int, y as int);
    }

    proof fn lemma_zero_mul(x: i64) {
    }

    proof fn lemma_zero_add() {
    }

    fn zero() -> (r: i64) {
        0i64
    }

    fn add(self, other: i64) -> (r: i64) {
        self + other
    }

    fn mul(self, other: i64) -> (r: i64) {
        self * other
    }
}

impl Scalar for i32 {
    open spec fn zero_spec() -> i32 {
        0i32
    }

    open spec fn add_spec(self, other: i32) -> i32 {
        (self + other) as i32
    }

    open spec fn mul_spec(self, other: i32) -> i32 {
        (self * other) as i32
    }

    open spec fn add_in_range(self, other: i32) -> bool {
        i32::MIN <= self + other <= i32::MAX
    }

    open spec fn mul_in_range(self, other: i32) -> bool {
        i32::MIN <= self * other <= i32::MAX
    }

    proof fn lemma_mul_commutes(x: i32, y: i32) {
        lemma_mul_is_commutative(x as int, y as int);
    }

    proof fn lemma_zero_mul(x: i32) {
    }

    proof fn lemma_zero_add() {
    }

    fn zero() -> (r: i32) {
        0i32
    }

    fn add(self, other: i32) -> (r: i32) {
        self + other
    }

    fn mul(self, other: i32) -> (r: i32) {
        self * other
    }
}

} // verus!
