//! The machine's value domain: 64-bit floating-point values, carried as
//! their IEEE 754 bit patterns in `u64`.
//!
//! The verified machine never looks inside a value; every operation on
//! values goes through the functions below. What is purely a matter of bits
//! — negation, equality, the NaN test, NaN canonicalization — is defined and
//! verified here. The remaining operations are trusted, and each states no
//! more than std documents: the five arithmetic operations determine their
//! result's bits except that the bit pattern of a NaN result is left open
//! (the machine canonicalizes it before storing), the ordering is a total
//! function of the operand bits, and of `powf`, whose precision std
//! documents as non-deterministic, nothing is stated at all. The conversions
//! `f64::from_bits` and `f64::to_bits` carry the operands in and the result
//! out of each call; they are exact and lossless.

use std::primitive::f64 as Double;
use vstd::prelude::*;

verus! {

/// The bit pattern of the floating-point value 0.0.
pub const ZERO_BITS: u64 = 0;

/// The bit pattern of the floating-point value 1.0.
pub const ONE_BITS: u64 = 0x3FF0_0000_0000_0000;

/// The sign bit, which is also the bit pattern of the value -0.0.
pub const SIGN_BIT: u64 = 0x8000_0000_0000_0000;

/// The canonical quiet-NaN bit pattern the machine stores for a NaN result.
pub const NAN_BITS: u64 = 0x7FF8_0000_0000_0000;

/// Whether a bit pattern is a NaN: all exponent bits set and a non-zero
/// mantissa.
pub open spec fn is_nan_bits(a: u64) -> bool {
    &&& (a >> 52) & 0x7FF == 0x7FF
    &&& a & 0x000F_FFFF_FFFF_FFFF != 0
}

/// Whether a bit pattern is one of the two zeroes, 0.0 or -0.0.
pub open spec fn is_zero_bits(a: u64) -> bool {
    a == ZERO_BITS || a == SIGN_BIT
}

/// The bit pattern of the negation of a value: the sign bit flipped, all
/// else kept.
pub open spec fn neg_bits(a: u64) -> u64 {
    a ^ SIGN_BIT
}

/// A bit pattern with its NaN payload erased: any NaN becomes the canonical
/// quiet NaN, anything else is kept as it is.
pub open spec fn canon_bits(a: u64) -> u64 {
    if is_nan_bits(a) {
        NAN_BITS
    } else {
        a
    }
}

/// The bit pattern of the sum of two values, where that sum is not NaN.
pub uninterp spec fn add_bits(a: u64, b: u64) -> u64;

/// The bit pattern of the difference of two values, where it is not NaN.
pub uninterp spec fn sub_bits(a: u64, b: u64) -> u64;

/// The bit pattern of the product of two values, where it is not NaN.
pub uninterp spec fn mul_bits(a: u64, b: u64) -> u64;

/// The bit pattern of the quotient of two values, where it is not NaN.
pub uninterp spec fn div_bits(a: u64, b: u64) -> u64;

/// The bit pattern of the remainder of two values, where it is not NaN.
pub uninterp spec fn rem_bits(a: u64, b: u64) -> u64;

/// Whether two values compare equal. IEEE 754 equality is a function of the
/// bits that needs no float call: a NaN compares equal to nothing, the two
/// zeroes compare equal to each other, and every other value has exactly one
/// bit pattern.
pub open spec fn eq_bits(a: u64, b: u64) -> bool {
    &&& !is_nan_bits(a)
    &&& !is_nan_bits(b)
    &&& (a == b || (is_zero_bits(a) && is_zero_bits(b)))
}

/// Whether the first value compares less than the second.
pub uninterp spec fn lt_bits(a: u64, b: u64) -> bool;

/// Whether a bit pattern is a NaN, executably.
pub(crate) fn bits_are_nan(a: u64) -> (r: bool)
    ensures
        r == is_nan_bits(a),
{
    (a >> 52) & 0x7FF == 0x7FF && a & 0x000F_FFFF_FFFF_FFFF != 0
}

/// Erase a NaN payload: any NaN becomes the canonical quiet NaN, anything
/// else is kept as it is.
pub(crate) fn canon_val(a: u64) -> (r: u64)
    ensures
        r == canon_bits(a),
{
    if bits_are_nan(a) {
        NAN_BITS
    } else {
        a
    }
}

/// Negate a value: flip the sign bit. std documents `f64` negation as
/// exactly this, so it needs no float call and no trust.
pub(crate) fn val_neg(a: u64) -> (r: u64)
    ensures
        r == neg_bits(a),
{
    a ^ SIGN_BIT
}

/// Relies on `f64` addition (IEEE 754): the sum's value is determined by the
/// operands, so its bits are wherever the sum is not NaN, and whether it is
/// NaN is determined; the bit pattern of a NaN result is left open, as Rust
/// documents it as non-deterministically chosen.
#[verifier::external_body]
pub(crate) fn val_add(a: u64, b: u64) -> (r: u64)
    ensures
        !is_nan_bits(add_bits(a, b)) ==> r == add_bits(a, b),
        is_nan_bits(r) == is_nan_bits(add_bits(a, b)),
{
    Double::to_bits(Double::from_bits(a) + Double::from_bits(b))
}

/// Relies on `f64` subtraction (IEEE 754): determined wherever the
/// difference is not NaN; the bit pattern of a NaN result is left open.
#[verifier::external_body]
pub(crate) fn val_sub(a: u64, b: u64) -> (r: u64)
    ensures
        !is_nan_bits(sub_bits(a, b)) ==> r == sub_bits(a, b),
        is_nan_bits(r) == is_nan_bits(sub_bits(a, b)),
{
    Double::to_bits(Double::from_bits(a) - Double::from_bits(b))
}

/// Relies on `f64` multiplication (IEEE 754): determined wherever the
/// product is not NaN; the bit pattern of a NaN result is left open.
#[verifier::external_body]
pub(crate) fn val_mul(a: u64, b: u64) -> (r: u64)
    ensures
        !is_nan_bits(mul_bits(a, b)) ==> r == mul_bits(a, b),
        is_nan_bits(r) == is_nan_bits(mul_bits(a, b)),
{
    Double::to_bits(Double::from_bits(a) * Double::from_bits(b))
}

/// Relies on `f64` division (IEEE 754): determined wherever the quotient is
/// not NaN; the bit pattern of a NaN result is left open. Division by zero
/// is not a fault: it yields an infinity or a NaN.
#[verifier::external_body]
pub(crate) fn val_div(a: u64, b: u64) -> (r: u64)
    ensures
        !is_nan_bits(div_bits(a, b)) ==> r == div_bits(a, b),
        is_nan_bits(r) == is_nan_bits(div_bits(a, b)),
{
    Double::to_bits(Double::from_bits(a) / Double::from_bits(b))
}

/// Relies on `f64` remainder (IEEE 754): determined wherever the remainder
/// is not NaN; the bit pattern of a NaN result is left open.
#[verifier::external_body]
pub(crate) fn val_rem(a: u64, b: u64) -> (r: u64)
    ensures
        !is_nan_bits(rem_bits(a, b)) ==> r == rem_bits(a, b),
        is_nan_bits(r) == is_nan_bits(rem_bits(a, b)),
{
    Double::to_bits(Double::from_bits(a) % Double::from_bits(b))
}

/// Relies on `f64::powf`. std documents its precision as non-deterministic —
/// the result may differ between platforms, Rust versions, and even between
/// invocations within one execution — so nothing is stated of the result.
#[verifier::external_body]
pub(crate) fn val_pow(a: u64, b: u64) -> u64 {
    Double::to_bits(Double::powf(Double::from_bits(a), Double::from_bits(b)))
}

/// Compare two values for equality, on the bits alone: std documents `f64`
/// equality as exactly `eq_bits`, so it needs no float call and no trust.
pub(crate) fn val_eq(a: u64, b: u64) -> (r: bool)
    ensures
        r == eq_bits(a, b),
{
    !bits_are_nan(a) && !bits_are_nan(b) && (a == b || ((a == ZERO_BITS || a == SIGN_BIT) && (b
        == ZERO_BITS || b == SIGN_BIT)))
}

/// Relies on `f64` ordering (IEEE 754): a total, deterministic function of
/// the operand bits. As std documents it: a NaN compares less than nothing,
/// and a value is never less than itself or than the other zero.
#[verifier::external_body]
pub(crate) fn val_lt(a: u64, b: u64) -> (r: bool)
    ensures
        r == lt_bits(a, b),
        is_nan_bits(a) || is_nan_bits(b) ==> !r,
        !is_nan_bits(a) && a == b ==> !r,
        is_zero_bits(a) && is_zero_bits(b) ==> !r,
{
    Double::from_bits(a) < Double::from_bits(b)
}

} // verus!
