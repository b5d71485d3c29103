//! The IEEE-754 binary32 encoding, read as a `u32` (the value of `f32::to_bits`).
use vstd::prelude::*;

verus! {

/// The sign bit (bit 31): true for a negative encoding.
pub open spec fn sign_of(b: u32) -> bool {
    (b >> 31u32) == 1
}

/// The biased exponent (bits 23 to 30).
pub open spec fn exponent_of(b: u32) -> u32 {
    (b >> 23u32) & 0xffu32
}

/// The trailing significand (bits 0 to 22).
pub open spec fn fraction_of(b: u32) -> u32 {
    b & 0x7f_ffffu32
}

/// `+0.0` or `-0.0`.
pub open spec fn is_zero_spec(b: u32) -> bool {
    exponent_of(b) == 0 && fraction_of(b) == 0
}

/// Whether `b` encodes a zero of either sign.
pub fn is_zero(b: u32) -> (r: bool)
    ensures
        r == is_zero_spec(b),
{
    assert((b & 0x7fff_ffffu32 == 0) == (((b >> 23u32) & 0xffu32) == 0 && b & 0x7f_ffffu32 == 0))
        by (bit_vector);
    b & 0x7fff_ffffu32 == 0
}

/// A NaN: the largest exponent with a non-zero significand.
pub open spec fn is_nan_spec(b: u32) -> bool {
    exponent_of(b) == 0xff && fraction_of(b) != 0
}

/// IEEE-754 equality of two encodings: no NaN equals anything, the two zeros equal
/// each other, and any other value equals only its own encoding.
pub open spec fn float_eq(a: u32, b: u32) -> bool {
    !is_nan_spec(a) && !is_nan_spec(b) && (a == b || (is_zero_spec(a) && is_zero_spec(b)))
}

/// The encoding with its sign bit cleared: IEEE-754 `abs`.
pub open spec fn abs_spec(b: u32) -> u32 {
    b & 0x7fff_ffffu32
}

/// The encoding with its sign bit flipped: IEEE-754 `negate`.
pub open spec fn neg_spec(b: u32) -> u32 {
    b ^ 0x8000_0000u32
}

/// Whether `b` encodes a NaN.
pub fn is_nan(b: u32) -> (r: bool)
    ensures
        r == is_nan_spec(b),
{
    assert(((b & 0x7fff_ffffu32) > 0x7f80_0000u32) == (((b >> 23u32) & 0xffu32) == 0xff
        && b & 0x7f_ffffu32 != 0)) by (bit_vector);
    (b & 0x7fff_ffffu32) > 0x7f80_0000u32
}

/// What `==` on the two `f32` values that `a` and `b` encode returns.
pub fn eq(a: u32, b: u32) -> (r: bool)
    ensures
        r == float_eq(a, b),
{
    if is_nan(a) || is_nan(b) {
        false
    } else {
        a == b || (is_zero(a) && is_zero(b))
    }
}

/// The absolute value: the sign bit cleared, all else kept.
pub fn abs(b: u32) -> (r: u32)
    ensures
        r == abs_spec(b),
        !sign_of(r),
        exponent_of(r) == exponent_of(b),
        fraction_of(r) == fraction_of(b),
{
    let r = b & 0x7fff_ffffu32;
    assert(!((r >> 31u32) == 1) && (r >> 23u32) & 0xffu32 == (b >> 23u32) & 0xffu32
        && r & 0x7f_ffffu32 == b & 0x7f_ffffu32) by (bit_vector)
        requires
            r == b & 0x7fff_ffffu32,
    ;
    r
}

/// The negation: the sign bit flipped, all else kept.
pub fn neg(b: u32) -> (r: u32)
    ensures
        r == neg_spec(b),
        sign_of(r) != sign_of(b),
        exponent_of(r) == exponent_of(b),
        fraction_of(r) == fraction_of(b),
{
    let r = b ^ 0x8000_0000u32;
    assert(((r >> 31u32) == 1) != ((b >> 31u32) == 1) && (r >> 23u32) & 0xffu32 == (b
        >> 23u32) & 0xffu32 && r & 0x7f_ffffu32 == b & 0x7f_ffffu32) by (bit_vector)
        requires
            r == b ^ 0x8000_0000u32,
    ;
    r
}

/// Equality of encodings as `f32` values is symmetric.
pub proof fn lemma_float_eq_symmetric(a: u32, b: u32)
    ensures
        float_eq(a, b) == float_eq(b, a),
{
}

/// Negation keeps NaNs NaN and zeros zero, so two values are equal exactly when their
/// negations are.
pub proof fn lemma_neg_keeps_float_eq(a: u32, b: u32)
    ensures
        float_eq(a, b) == float_eq(neg_spec(a), neg_spec(b)),
{
    assert(((a ^ 0x8000_0000u32) >> 23u32) & 0xffu32 == (a >> 23u32) & 0xffu32 && (a
        ^ 0x8000_0000u32) & 0x7f_ffffu32 == a & 0x7f_ffffu32) by (bit_vector);
    assert(((b ^ 0x8000_0000u32) >> 23u32) & 0xffu32 == (b >> 23u32) & 0xffu32 && (b
        ^ 0x8000_0000u32) & 0x7f_ffffu32 == b & 0x7f_ffffu32) by (bit_vector);
    assert((a ^ 0x8000_0000u32 == b ^ 0x8000_0000u32) == (a == b)) by (bit_vector);
}

} // verus!
