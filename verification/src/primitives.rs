//! Scalar floating-point primitives.
//!
//! The scalar representation is `num_bigfloat::BigFloat`, a pure-Rust
//! software floating-point number. The verified code treats a scalar as an
//! opaque value: every primitive operation is performed by the outside
//! crate behind a trusted wrapper, and each wrapper's result is pinned by an
//! uninterpreted spec function, so that the contracts of the complex-number
//! operations can say exactly which composition of primitives they compute.

use vstd::prelude::*;

verus! {

/// The scalar type of the library: a software floating-point number
/// provided by the `num_bigfloat` crate, opaque to verification.
#[verifier::external_type_specification]
#[verifier::external_body]
pub struct ExBigFloat(num_bigfloat::BigFloat);

/// The scalar value that `num_bigfloat::BigFloat::from_i64` returns for `n`.
pub uninterp spec fn from_int_of(n: i64) -> num_bigfloat::BigFloat;

/// The scalar sum that `num_bigfloat::BigFloat::add` returns for `a` and `b`.
pub uninterp spec fn add_of(a: num_bigfloat::BigFloat, b: num_bigfloat::BigFloat) -> num_bigfloat::BigFloat;

/// The scalar difference that `num_bigfloat::BigFloat::sub` returns for `a` and `b`.
pub uninterp spec fn sub_of(a: num_bigfloat::BigFloat, b: num_bigfloat::BigFloat) -> num_bigfloat::BigFloat;

/// The scalar product that `num_bigfloat::BigFloat::mul` returns for `a` and `b`.
pub uninterp spec fn mul_of(a: num_bigfloat::BigFloat, b: num_bigfloat::BigFloat) -> num_bigfloat::BigFloat;

/// The scalar quotient that `num_bigfloat::BigFloat::div` returns for `a` and `b`.
/// A zero divisor yields an infinity or NaN, never a panic.
pub uninterp spec fn div_of(a: num_bigfloat::BigFloat, b: num_bigfloat::BigFloat) -> num_bigfloat::BigFloat;

/// The negation that `num_bigfloat::BigFloat::inv_sign` returns for `a`.
pub uninterp spec fn neg_of(a: num_bigfloat::BigFloat) -> num_bigfloat::BigFloat;

/// The sine that `num_bigfloat::BigFloat::sin` returns for an angle in radians.
pub uninterp spec fn sin_of(a: num_bigfloat::BigFloat) -> num_bigfloat::BigFloat;

/// The cosine that `num_bigfloat::BigFloat::cos` returns for an angle in radians.
pub uninterp spec fn cos_of(a: num_bigfloat::BigFloat) -> num_bigfloat::BigFloat;

/// The hyperbolic sine that `num_bigfloat::BigFloat::sinh` returns.
pub uninterp spec fn sinh_of(a: num_bigfloat::BigFloat) -> num_bigfloat::BigFloat;

/// The hyperbolic cosine that `num_bigfloat::BigFloat::cosh` returns.
pub uninterp spec fn cosh_of(a: num_bigfloat::BigFloat) -> num_bigfloat::BigFloat;

/// The square root that `num_bigfloat::BigFloat::sqrt` returns
/// (NaN for a negative argument, never a panic).
pub uninterp spec fn sqrt_of(a: num_bigfloat::BigFloat) -> num_bigfloat::BigFloat;

/// The exponential that `num_bigfloat::BigFloat::exp` returns.
pub uninterp spec fn exp_of(a: num_bigfloat::BigFloat) -> num_bigfloat::BigFloat;

/// The natural logarithm that `num_bigfloat::BigFloat::ln` returns
/// (NaN or an infinity outside the domain, never a panic).
pub uninterp spec fn ln_of(a: num_bigfloat::BigFloat) -> num_bigfloat::BigFloat;

/// The angle that `num_traits::Float::atan2` for `num_bigfloat::BigFloat`
/// returns for the point `(x, y)`: the four-quadrant arctangent of `y / x`.
pub uninterp spec fn atan2_of(y: num_bigfloat::BigFloat, x: num_bigfloat::BigFloat) -> num_bigfloat::BigFloat;

/// Relies on `num_bigfloat::BigFloat::from_i64`: the scalar with the value of `n`.
#[verifier::external_body]
pub(crate) fn big_from_i64(n: i64) -> (r: num_bigfloat::BigFloat)
    ensures
        r == from_int_of(n),
{
    num_bigfloat::BigFloat::from_i64(n)
}

/// Relies on `num_bigfloat::BigFloat::add`: rounded addition; exceptional
/// operands propagate as infinities or NaN, never a panic.
#[verifier::external_body]
pub(crate) fn big_add(a: num_bigfloat::BigFloat, b: num_bigfloat::BigFloat) -> (r: num_bigfloat::BigFloat)
    ensures
        r == add_of(a, b),
{
    a.add(&b)
}

/// Relies on `num_bigfloat::BigFloat::sub`: rounded subtraction.
#[verifier::external_body]
pub(crate) fn big_sub(a: num_bigfloat::BigFloat, b: num_bigfloat::BigFloat) -> (r: num_bigfloat::BigFloat)
    ensures
        r == sub_of(a, b),
{
    a.sub(&b)
}

/// Relies on `num_bigfloat::BigFloat::mul`: rounded multiplication.
#[verifier::external_body]
pub(crate) fn big_mul(a: num_bigfloat::BigFloat, b: num_bigfloat::BigFloat) -> (r: num_bigfloat::BigFloat)
    ensures
        r == mul_of(a, b),
{
    a.mul(&b)
}

/// Relies on `num_bigfloat::BigFloat::div`: rounded division; a zero divisor
/// yields an infinity or NaN, never a panic.
#[verifier::external_body]
pub(crate) fn big_div(a: num_bigfloat::BigFloat, b: num_bigfloat::BigFloat) -> (r: num_bigfloat::BigFloat)
    ensures
        r == div_of(a, b),
{
    a.div(&b)
}

/// Relies on `num_bigfloat::BigFloat::inv_sign`: negation is a pure sign
/// flip, so applying it to its own result restores the argument.
#[verifier::external_body]
pub(crate) fn big_neg(a: num_bigfloat::BigFloat) -> (r: num_bigfloat::BigFloat)
    ensures
        r == neg_of(a),
        neg_of(r) == a,
{
    a.inv_sign()
}

/// Relies on `num_bigfloat::BigFloat::sin`.
#[verifier::external_body]
pub(crate) fn big_sin(a: num_bigfloat::BigFloat) -> (r: num_bigfloat::BigFloat)
    ensures
        r == sin_of(a),
{
    a.sin()
}

/// Relies on `num_bigfloat::BigFloat::cos`.
#[verifier::external_body]
pub(crate) fn big_cos(a: num_bigfloat::BigFloat) -> (r: num_bigfloat::BigFloat)
    ensures
        r == cos_of(a),
{
    a.cos()
}

/// Relies on `num_bigfloat::BigFloat::sinh`.
#[verifier::external_body]
pub(crate) fn big_sinh(a: num_bigfloat::BigFloat) -> (r: num_bigfloat::BigFloat)
    ensures
        r == sinh_of(a),
{
    a.sinh()
}

/// Relies on `num_bigfloat::BigFloat::cosh`.
#[verifier::external_body]
pub(crate) fn big_cosh(a: num_bigfloat::BigFloat) -> (r: num_bigfloat::BigFloat)
    ensures
        r == cosh_of(a),
{
    a.cosh()
}

/// Relies on `num_bigfloat::BigFloat::sqrt`.
#[verifier::external_body]
pub(crate) fn big_sqrt(a: num_bigfloat::BigFloat) -> (r: num_bigfloat::BigFloat)
    ensures
        r == sqrt_of(a),
{
    a.sqrt()
}

/// Relies on `num_bigfloat::BigFloat::exp`.
#[verifier::external_body]
pub(crate) fn big_exp(a: num_bigfloat::BigFloat) -> (r: num_bigfloat::BigFloat)
    ensures
        r == exp_of(a),
{
    a.exp()
}

/// Relies on `num_bigfloat::BigFloat::ln`.
#[verifier::external_body]
pub(crate) fn big_ln(a: num_bigfloat::BigFloat) -> (r: num_bigfloat::BigFloat)
    ensures
        r == ln_of(a),
{
    a.ln()
}

/// Relies on `num_traits::Float::atan2` for `num_bigfloat::BigFloat`: the
/// four-quadrant arctangent of `y / x`, and zero when both arguments are zero.
#[verifier::external_body]
pub(crate) fn big_atan2(y: num_bigfloat::BigFloat, x: num_bigfloat::BigFloat) -> (r: num_bigfloat::BigFloat)
    ensures
        r == atan2_of(y, x),
{
    num_traits::Float::atan2(y, x)
}

} // verus!
