//! The fallback results for operands of zero length: an angle with a zero-length
//! vector is 0, and normalizing a zero-length vector gives the zero vector.
use vstd::prelude::*;

use crate::binary32::{is_zero_spec, sign_of};
use crate::vector::Vector2Bits;

verus! {

/// The angle between two vectors whose magnitudes are encoded by `mag_a` and `mag_b`,
/// where it is fixed without computing: `+0.0` when either magnitude is a zero, and
/// `None` when both are non-zero and the angle has to be computed.
pub fn degenerate_angle(mag_a: u32, mag_b: u32) -> (r: Option<u32>)
    ensures
        r == (if is_zero_spec(mag_a) || is_zero_spec(mag_b) {
            Some(0u32)
        } else {
            None::<u32>
        }),
        r matches Some(z) ==> is_zero_spec(z) && !sign_of(z),
{
    assert(((0u32 >> 23u32) & 0xffu32) == 0 && 0u32 & 0x7f_ffffu32 == 0 && (0u32 >> 31u32)
        != 1) by (bit_vector);
    if crate::binary32::is_zero(mag_a) || crate::binary32::is_zero(mag_b) {
        Some(0u32)
    } else {
        None
    }
}

/// The normalized form of a vector whose magnitude is encoded by `mag`, where it is
/// fixed without dividing: the zero vector when the magnitude is a zero, and `None`
/// when the vector must be divided by its magnitude.
pub fn degenerate_normalized(mag: u32) -> (r: Option<Vector2Bits>)
    ensures
        is_zero_spec(mag) ==> r == Some(Vector2Bits { x: 0, y: 0 }),
        !is_zero_spec(mag) ==> r is None,
        r matches Some(z) ==> z.is_zero_spec(),
{
    if crate::binary32::is_zero(mag) {
        Some(Vector2Bits::zero())
    } else {
        None
    }
}

} // verus!
