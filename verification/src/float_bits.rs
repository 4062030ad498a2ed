//! Arithmetic on IEEE 754 binary64 values, carried as their `u64` bit
//! patterns.
//!
//! Every operation here is a call into const_soft_float, which computes the
//! IEEE 754 result purely from the operand bit patterns in integer
//! arithmetic. Each call is therefore a function of its arguments alone, and
//! each gets a name that the contracts of the library speak of.

use vstd::prelude::*;
use const_soft_float::soft_f64::SoftF64;

verus! {

/// The bit pattern of the IEEE 754 binary64 sum of two binary64 values.
pub uninterp spec fn add_bits(a: u64, b: u64) -> u64;

/// The bit pattern of the IEEE 754 binary64 difference of two binary64
/// values.
pub uninterp spec fn sub_bits(a: u64, b: u64) -> u64;

/// The bit pattern of the IEEE 754 binary64 product of two binary64 values.
pub uninterp spec fn mul_bits(a: u64, b: u64) -> u64;

/// The bit pattern of the IEEE 754 binary64 quotient of two binary64 values.
pub uninterp spec fn div_bits(a: u64, b: u64) -> u64;

/// The bit pattern of the IEEE 754 binary64 square root of a binary64 value.
pub uninterp spec fn sqrt_bits(a: u64) -> u64;

/// The bit pattern of the binary64 sine of a binary64 value (in radians).
pub uninterp spec fn sin_bits(a: u64) -> u64;

/// Relies on `SoftF64::add` of const_soft_float: binary64 addition computed
/// in software, a pure function of the two operand bit patterns.
#[verifier::external_body]
pub(crate) fn soft_add(a: u64, b: u64) -> (r: u64)
    ensures
        r == add_bits(a, b),
{
    SoftF64::from_bits(a).add(SoftF64::from_bits(b)).to_bits()
}

/// Relies on `SoftF64::sub` of const_soft_float: binary64 subtraction
/// computed in software, a pure function of the two operand bit patterns.
#[verifier::external_body]
pub(crate) fn soft_sub(a: u64, b: u64) -> (r: u64)
    ensures
        r == sub_bits(a, b),
{
    SoftF64::from_bits(a).sub(SoftF64::from_bits(b)).to_bits()
}

/// Relies on `SoftF64::mul` of const_soft_float: binary64 multiplication
/// computed in software, a pure function of the two operand bit patterns.
#[verifier::external_body]
pub(crate) fn soft_mul(a: u64, b: u64) -> (r: u64)
    ensures
        r == mul_bits(a, b),
{
    SoftF64::from_bits(a).mul(SoftF64::from_bits(b)).to_bits()
}

/// Relies on `SoftF64::div` of const_soft_float: binary64 division computed
/// in software, a pure function of the two operand bit patterns.
#[verifier::external_body]
pub(crate) fn soft_div(a: u64, b: u64) -> (r: u64)
    ensures
        r == div_bits(a, b),
{
    SoftF64::from_bits(a).div(SoftF64::from_bits(b)).to_bits()
}

/// Relies on `SoftF64::sqrt` of const_soft_float: the binary64 square root
/// computed in software, a pure function of the operand bit pattern.
#[verifier::external_body]
pub(crate) fn soft_sqrt(a: u64) -> (r: u64)
    ensures
        r == sqrt_bits(a),
{
    SoftF64::from_bits(a).sqrt().to_bits()
}

/// Relies on `SoftF64::sin` of const_soft_float: the binary64 sine computed
/// in software, a pure function of the operand bit pattern.
#[verifier::external_body]
pub(crate) fn soft_sin(a: u64) -> (r: u64)
    ensures
        r == sin_bits(a),
{
    SoftF64::from_bits(a).sin().to_bits()
}

} // verus!
