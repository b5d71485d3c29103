//! A two-dimensional vector held as the binary32 encodings of its components.
use vstd::prelude::*;

use crate::binary32;
use crate::binary32::{abs_spec, float_eq, is_zero_spec, neg_spec};

verus! {

/// The `x` and `y` components of a vector, each as the encoding of an `f32`.
#[derive(Clone, Copy, Debug)]
pub struct Vector2Bits {
    pub x: u32,
    pub y: u32,
}

impl Vector2Bits {
    /// Both components are zeros, of either sign.
    pub open spec fn is_zero_spec(&self) -> bool {
        is_zero_spec(self.x) && is_zero_spec(self.y)
    }

    /// Componentwise `f32` equality, with no tolerance.
    pub open spec fn equals_spec(&self, other: &Self) -> bool {
        float_eq(self.x, other.x) && float_eq(self.y, other.y)
    }

    /// Each component's absolute value.
    pub open spec fn abs_spec(&self) -> Self {
        Vector2Bits { x: abs_spec(self.x), y: abs_spec(self.y) }
    }

    /// Each component negated.
    pub open spec fn neg_spec(&self) -> Self {
        Vector2Bits { x: neg_spec(self.x), y: neg_spec(self.y) }
    }

    pub fn new(x: u32, y: u32) -> (r: Self)
        ensures
            r.x == x,
            r.y == y,
    {
        Vector2Bits { x, y }
    }

    /// The vector `(+0.0, +0.0)`: what normalizing a vector of zero length gives.
    pub fn zero() -> (r: Self)
        ensures
            r.x == 0,
            r.y == 0,
            r.is_zero_spec(),
    {
        assert(((0u32 >> 23u32) & 0xffu32) == 0 && 0u32 & 0x7f_ffffu32 == 0) by (bit_vector);
        Vector2Bits { x: 0, y: 0 }
    }

    /// Whether this is the zero vector: both components are zeros.
    pub fn is_zero(&self) -> (r: bool)
        ensures
            r == self.is_zero_spec(),
    {
        binary32::is_zero(self.x) && binary32::is_zero(self.y)
    }

    /// Whether the two vectors are equal as `f32` pairs.
    pub fn equals(&self, other: &Self) -> (r: bool)
        ensures
            r == self.equals_spec(other),
    {
        binary32::eq(self.x, other.x) && binary32::eq(self.y, other.y)
    }

    pub fn abs(&self) -> (r: Self)
        ensures
            r == self.abs_spec(),
    {
        Vector2Bits { x: binary32::abs(self.x), y: binary32::abs(self.y) }
    }

    pub fn neg(&self) -> (r: Self)
        ensures
            r == self.neg_spec(),
    {
        Vector2Bits { x: binary32::neg(self.x), y: binary32::neg(self.y) }
    }
}

/// Vector equality is symmetric.
pub proof fn lemma_equals_symmetric(a: Vector2Bits, b: Vector2Bits)
    ensures
        a.equals_spec(&b) == b.equals_spec(&a),
{
    binary32::lemma_float_eq_symmetric(a.x, b.x);
    binary32::lemma_float_eq_symmetric(a.y, b.y);
}

/// Two vectors are equal exactly when their negations are: comparing `-d` with a
/// result says the same as comparing `d` with its negation.
pub proof fn lemma_neg_keeps_equals(a: Vector2Bits, b: Vector2Bits)
    ensures
        a.equals_spec(&b) == a.neg_spec().equals_spec(&b.neg_spec()),
{
    binary32::lemma_neg_keeps_float_eq(a.x, b.x);
    binary32::lemma_neg_keeps_float_eq(a.y, b.y);
}

/// A vector equals the zero vector exactly when both its components are zeros.
pub proof fn lemma_equals_zero(v: Vector2Bits)
    ensures
        v.equals_spec(&Vector2Bits { x: 0, y: 0 }) == v.is_zero_spec(),
{
    assert(((0u32 >> 23u32) & 0xffu32) == 0 && 0u32 & 0x7f_ffffu32 == 0) by (bit_vector);
    assert(is_zero_spec(v.x) ==> !binary32::is_nan_spec(v.x));
    assert(is_zero_spec(v.y) ==> !binary32::is_nan_spec(v.y));
}

} // verus!
