//! Single-precision float values carried as their IEEE-754 bit patterns.
//!
//! The verified code never computes with floats: every such value is a
//! `u32` holding the bits of a single-precision number, exactly as the
//! inference engine and the image pipeline hand them over. Ordering two
//! bit patterns needs no floating-point hardware — the encoding is
//! monotonic in the value — so the confidence comparison of the
//! detection decoder is ordinary integer logic, specified and proved
//! here. Arithmetic on these values (the coordinate normalization) is
//! not done in this crate's verified code at all; the hosting adapter
//! performs it on the selected candidates.

use vstd::prelude::*;

verus! {

/// Bits of `0.5f32`: the default detection confidence threshold.
pub const F32_HALF_BITS: u32 = 0x3F00_0000;

/// The sign bit of a single-precision pattern.
pub const F32_SIGN_BIT: u32 = 0x8000_0000;

/// The magnitude (sign cleared) of the two infinities.
pub const F32_INF_MAG: u32 = 0x7F80_0000;

/// The low 31 bits of the pattern: exponent and significand, the
/// magnitude of the encoded number.
pub open spec fn f32_bits_mag(x: u32) -> u32 {
    if x >= F32_SIGN_BIT {
        (x - F32_SIGN_BIT) as u32
    } else {
        x
    }
}

/// True when the pattern encodes a NaN: exponent all ones and a
/// non-zero significand, that is a magnitude above the infinity.
pub open spec fn f32_bits_is_nan(x: u32) -> bool {
    f32_bits_mag(x) > F32_INF_MAG
}

/// Where the encoded number stands on the real line, as an integer key:
/// the encoding orders positive numbers by their magnitude bits and
/// negative ones in reverse, and both zeros get key 0.
pub open spec fn f32_bits_rank(x: u32) -> int {
    if x >= F32_SIGN_BIT {
        -(f32_bits_mag(x) as int)
    } else {
        f32_bits_mag(x) as int
    }
}

/// IEEE-754 ordered greater-than on two single-precision patterns:
/// false whenever either side is NaN, and otherwise the order of the
/// encoded numbers, with the two zeros equal.
pub open spec fn f32_bits_gt(a: u32, b: u32) -> bool {
    &&& !f32_bits_is_nan(a)
    &&& !f32_bits_is_nan(b)
    &&& f32_bits_rank(a) > f32_bits_rank(b)
}

/// Ordered greater-than on single-precision bit patterns, in integer
/// logic.
pub fn f32_gt(a: u32, b: u32) -> (r: bool)
    ensures
        r == f32_bits_gt(a, b),
{
    let mag_a: u32 = if a >= F32_SIGN_BIT { a - F32_SIGN_BIT } else { a };
    let mag_b: u32 = if b >= F32_SIGN_BIT { b - F32_SIGN_BIT } else { b };
    if mag_a > F32_INF_MAG || mag_b > F32_INF_MAG {
        return false;
    }
    let neg_a = a >= F32_SIGN_BIT;
    let neg_b = b >= F32_SIGN_BIT;
    if neg_a {
        neg_b && mag_b > mag_a
    } else {
        if neg_b {
            mag_a > 0 || mag_b > 0
        } else {
            mag_a > mag_b
        }
    }
}

} // verus!
