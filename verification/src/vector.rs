//! The three-component vector type and its dot product.

use vstd::prelude::*;
use crate::scalar::Scalar;

verus! {

/// An immutable value holding three components of one element type.
#[derive(Copy, Clone)]
pub struct Vector3<T: Scalar> {
    pub x: T,
    pub y: T,
    pub z: T,
}

/// The dot product of `a` and `b`, accumulated left to right:
/// `(x1*x2 + y1*y2) + z1*z2`. The order is part of the contract, so that
/// every implementation returns the same value on the same operands.
pub open spec fn spec_dot<T: Scalar>(a: Vector3<T>, b: Vector3<T>) -> T {
    a.x.mul_spec(b.x).add_spec(a.y.mul_spec(b.y)).add_spec(a.z.mul_spec(b.z))
}

/// The operand pairs on which `dot` is defined: each lane product and each
/// accumulation step in the fixed left-to-right order stays in range.
pub open spec fn dot_in_range<T: Scalar>(a: Vector3<T>, b: Vector3<T>) -> bool {
    &&& a.x.mul_in_range(b.x)
    &&& a.y.mul_in_range(b.y)
    &&& a.z.mul_in_range(b.z)
    &&& a.x.mul_spec(b.x).add_in_range(a.y.mul_spec(b.y))
    &&& a.x.mul_spec(b.x).add_spec(a.y.mul_spec(b.y)).add_in_range(a.z.mul_spec(b.z))
}

/// The vector whose three components are all zero.
pub open spec fn spec_zero_vector<T: Scalar>() -> Vector3<T> {
    Vector3 { x: T::zero_spec(), y: T::zero_spec(), z: T::zero_spec() }
}

impl<T: Scalar> Vector3<T> {
    /// Constructs a vector from its three components. Every component value
    /// is valid; there is no failure mode.
    pub fn new(x: T, y: T, z: T) -> (v: Self)
        ensures
            v.x == x,
            v.y == y,
            v.z == z,
    {
        Vector3 { x, y, z }
    }

    /// The dot product, computed in the arithmetic of `T` in the fixed
    /// left-to-right order.
    pub fn dot(&self, other: &Vector3<T>) -> (r: T)
        requires
            dot_in_range(*self, *other),
        ensures
            r == spec_dot(*self, *other),
    {
        self.x.mul(other.x).add(self.y.mul(other.y)).add(self.z.mul(other.z))
    }
}

/// The dot product is commutative: swapping the operands changes neither the
/// result nor whether the computation is defined. Each lane product commutes
/// and the accumulation order is unchanged by the swap.
pub proof fn lemma_dot_commutes<T: Scalar>(a: Vector3<T>, b: Vector3<T>)
    ensures
        spec_dot(a, b) == spec_dot(b, a),
        dot_in_range(a, b) == dot_in_range(b, a),
{
    T::lemma_mul_commutes(a.x, b.x);
    T::lemma_mul_commutes(a.y, b.y);
    T::lemma_mul_commutes(a.z, b.z);
}

/// The zero vector dotted with any vector is defined and yields exactly
/// zero, in either operand order.
pub proof fn lemma_zero_dot<T: Scalar>(b: Vector3<T>)
    ensures
        dot_in_range(spec_zero_vector::<T>(), b),
        spec_dot(spec_zero_vector::<T>(), b) == T::zero_spec(),
        dot_in_range(b, spec_zero_vector::<T>()),
        spec_dot(b, spec_zero_vector::<T>()) == T::zero_spec(),
{
    T::lemma_zero_mul(b.x);
    T::lemma_zero_mul(b.y);
    T::lemma_zero_mul(b.z);
    T::lemma_zero_add();
    lemma_dot_commutes(spec_zero_vector::<T>(), b);
}

/// For an exact arithmetic element type the dot product is exact: with
/// 64-bit integer components, whenever the computation is in range the
/// result is the mathematical sum of the lane products, with no truncation.
pub proof fn lemma_i64_dot_exact(a: Vector3<i64>, b: Vector3<i64>)
    requires
        dot_in_range(a, b),
    ensures
        spec_dot(a, b) == a.x * b.x + a.y * b.y + a.z * b.z,
{
}

/// The 32-bit integer counterpart of `lemma_i64_dot_exact`.
pub proof fn lemma_i32_dot_exact(a: Vector3<i32>, b: Vector3<i32>)
    requires
        dot_in_range(a, b),
    ensures
        spec_dot(a, b) == a.x * b.x + a.y * b.y + a.z * b.z,
{
}

} // verus!
