//! IEEE 754 bit patterns, read as integers.

use vstd::prelude::*;

verus! {

/// Sign bit of a double-precision pattern.
pub const DOUBLE_SIGN: u64 = 0x8000_0000_0000_0000;

/// Everything but the sign bit of a double-precision pattern.
pub const DOUBLE_MAGNITUDE: u64 = 0x7fff_ffff_ffff_ffff;

/// Exponent field of a double-precision pattern.
pub const DOUBLE_EXPONENT: u64 = 0x7ff0_0000_0000_0000;

/// Everything but the sign bit of a single-precision pattern.
pub const SINGLE_MAGNITUDE: u32 = 0x7fff_ffff;

/// The pattern denotes a number: neither an infinity nor a NaN.
pub open spec fn double_is_finite(bits: u64) -> bool {
    bits & DOUBLE_EXPONENT != DOUBLE_EXPONENT
}

/// An integer that orders double-precision patterns as the numbers they
/// denote are ordered. Sign and magnitude are read apart, so that the two
/// zeros share rank 0. On patterns that are no NaN, one number is smaller
/// than another exactly if its rank is smaller, and equal exactly if the
/// ranks are equal.
pub open spec fn double_rank(bits: u64) -> int {
    if bits & DOUBLE_SIGN == 0 {
        (bits & DOUBLE_MAGNITUDE) as int
    } else {
        -((bits & DOUBLE_MAGNITUDE) as int)
    }
}

/// Two finite patterns that denote the same number: their difference is zero.
pub open spec fn double_cancels(a: u64, b: u64) -> bool {
    double_is_finite(a) && double_is_finite(b) && double_rank(a) == double_rank(b)
}

/// The single-precision pattern is one of the two zeros, the only patterns
/// that compare equal to `0.0`.
pub open spec fn single_is_zero(bits: u32) -> bool {
    bits & SINGLE_MAGNITUDE == 0
}

pub fn is_finite_double(bits: u64) -> (r: bool)
    ensures
        r == double_is_finite(bits),
{
    bits & DOUBLE_EXPONENT != DOUBLE_EXPONENT
}

/// Whether the number behind `a` is smaller than the number behind `b`.
pub fn double_less(a: u64, b: u64) -> (r: bool)
    ensures
        r == (double_rank(a) < double_rank(b)),
{
    let ma: u64 = a & DOUBLE_MAGNITUDE;
    let mb: u64 = b & DOUBLE_MAGNITUDE;
    let a_negative: bool = a & DOUBLE_SIGN != 0;
    let b_negative: bool = b & DOUBLE_SIGN != 0;
    if a_negative {
        if b_negative {
            mb < ma
        } else {
            ma != 0 || mb != 0
        }
    } else {
        if b_negative {
            false
        } else {
            ma < mb
        }
    }
}

/// Whether `a` and `b` stand for the same number.
pub fn double_same(a: u64, b: u64) -> (r: bool)
    ensures
        r == (double_rank(a) == double_rank(b)),
{
    let ma: u64 = a & DOUBLE_MAGNITUDE;
    let mb: u64 = b & DOUBLE_MAGNITUDE;
    let a_negative: bool = a & DOUBLE_SIGN != 0;
    let b_negative: bool = b & DOUBLE_SIGN != 0;
    if a_negative == b_negative {
        ma == mb
    } else {
        ma == 0 && mb == 0
    }
}

pub fn is_zero_single(bits: u32) -> (r: bool)
    ensures
        r == single_is_zero(bits),
{
    bits & SINGLE_MAGNITUDE == 0
}

} // verus!
