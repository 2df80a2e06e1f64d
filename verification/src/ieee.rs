//! IEEE 754 binary64 arithmetic on raw bit patterns.
//!
//! Every coordinate in this crate is carried as the 64-bit pattern of an
//! IEEE 754 binary64 number. The four arithmetic operations, the ordering
//! test and the conversion from small integers are performed by
//! `rustc_apfloat`, a software implementation of IEEE 754 that rounds to
//! nearest (ties to even) and is a pure function of its operands, bit for
//! bit. Each operation is given an uninterpreted name here, and the trusted
//! wrappers below state that the executable result is that name applied to
//! the operands.

use vstd::prelude::*;
use rustc_apfloat::Float;

verus! {

/// The bit pattern of the IEEE 754 binary64 sum of `a` and `b`.
pub uninterp spec fn add_bits(a: u64, b: u64) -> u64;

/// The bit pattern of the IEEE 754 binary64 difference `a - b`.
pub uninterp spec fn sub_bits(a: u64, b: u64) -> u64;

/// The bit pattern of the IEEE 754 binary64 product of `a` and `b`.
pub uninterp spec fn mul_bits(a: u64, b: u64) -> u64;

/// The bit pattern of the IEEE 754 binary64 quotient `a / b`.
pub uninterp spec fn div_bits(a: u64, b: u64) -> u64;

/// Whether `a < b` in the IEEE 754 partial order (false whenever either
/// operand is a NaN).
pub uninterp spec fn lt_bits(a: u64, b: u64) -> bool;

/// The bit pattern of `n` converted to IEEE 754 binary64. The conversion is
/// exact for every `u32`, so the result is always finite.
pub uninterp spec fn bits_of_u32(n: u32) -> u64;

/// The bit pattern with the sign bit cleared: the IEEE 754 absolute value.
pub open spec fn abs_bits(a: u64) -> u64 {
    a & 0x7fff_ffff_ffff_ffff
}

/// Relies on `rustc_apfloat`'s binary64 addition (`IeeeFloat::add_r`,
/// rounding to nearest, ties to even): a pure function of the operand bits.
#[verifier::external_body]
pub(crate) fn fp_add(a: u64, b: u64) -> (r: u64)
    ensures
        r == add_bits(a, b),
{
    let x = rustc_apfloat::ieee::Double::from_bits(a as u128);
    let y = rustc_apfloat::ieee::Double::from_bits(b as u128);
    (x + y).value.to_bits() as u64
}

/// Relies on `rustc_apfloat`'s binary64 subtraction (`IeeeFloat::sub_r`,
/// rounding to nearest, ties to even): a pure function of the operand bits.
#[verifier::external_body]
pub(crate) fn fp_sub(a: u64, b: u64) -> (r: u64)
    ensures
        r == sub_bits(a, b),
{
    let x = rustc_apfloat::ieee::Double::from_bits(a as u128);
    let y = rustc_apfloat::ieee::Double::from_bits(b as u128);
    (x - y).value.to_bits() as u64
}

/// Relies on `rustc_apfloat`'s binary64 multiplication (`IeeeFloat::mul_r`,
/// rounding to nearest, ties to even): a pure function of the operand bits.
#[verifier::external_body]
pub(crate) fn fp_mul(a: u64, b: u64) -> (r: u64)
    ensures
        r == mul_bits(a, b),
{
    let x = rustc_apfloat::ieee::Double::from_bits(a as u128);
    let y = rustc_apfloat::ieee::Double::from_bits(b as u128);
    (x * y).value.to_bits() as u64
}

/// Relies on `rustc_apfloat`'s binary64 division (`IeeeFloat::div_r`,
/// rounding to nearest, ties to even): a pure function of the operand bits.
#[verifier::external_body]
pub(crate) fn fp_div(a: u64, b: u64) -> (r: u64)
    ensures
        r == div_bits(a, b),
{
    let x = rustc_apfloat::ieee::Double::from_bits(a as u128);
    let y = rustc_apfloat::ieee::Double::from_bits(b as u128);
    (x / y).value.to_bits() as u64
}

/// Relies on `rustc_apfloat`'s `PartialOrd` for binary64, which implements
/// the IEEE 754 partial order: a NaN operand compares as unordered, so the
/// result is then false.
#[verifier::external_body]
pub(crate) fn fp_lt(a: u64, b: u64) -> (r: bool)
    ensures
        r == lt_bits(a, b),
{
    let x = rustc_apfloat::ieee::Double::from_bits(a as u128);
    let y = rustc_apfloat::ieee::Double::from_bits(b as u128);
    x < y
}

/// Relies on `rustc_apfloat`'s `Float::from_u128` conversion to binary64,
/// which is exact for every value a `u32` can hold.
#[verifier::external_body]
pub(crate) fn fp_of_u32(n: u32) -> (r: u64)
    ensures
        r == bits_of_u32(n),
{
    rustc_apfloat::ieee::Double::from_u128(n as u128).value.to_bits() as u64
}

/// The IEEE 754 absolute value is a bit operation: it clears the sign bit.
pub(crate) fn fp_abs(a: u64) -> (r: u64)
    ensures
        r == abs_bits(a),
{
    a & 0x7fff_ffff_ffff_ffff
}

} // verus!
