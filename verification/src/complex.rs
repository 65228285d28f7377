//! The scalar complex-number type and its operations.

use vstd::prelude::*;

use crate::primitives::{
    add_of, atan2_of, big_add, big_atan2, big_cos, big_cosh, big_div, big_exp, big_from_i64,
    big_ln, big_mul, big_neg, big_sin, big_sinh, big_sqrt, big_sub, cos_of, cosh_of, div_of,
    exp_of, from_int_of, ln_of, mul_of, neg_of, sin_of, sinh_of, sqrt_of, sub_of,
};
use crate::polar::Polar;

verus! {

/// A complex number `re + im * i` over the library's scalar type.
#[derive(Debug, Clone, Copy, PartialEq)]
pub struct Complex {
    /// The real part of the complex number.
    pub re: num_bigfloat::BigFloat,
    /// The imaginary part of the complex number.
    pub im: num_bigfloat::BigFloat,
}

/// The componentwise sum of two complex numbers.
pub open spec fn spec_add(a: Complex, b: Complex) -> Complex {
    Complex { re: add_of(a.re, b.re), im: add_of(a.im, b.im) }
}

/// The componentwise difference of two complex numbers.
pub open spec fn spec_sub(a: Complex, b: Complex) -> Complex {
    Complex { re: sub_of(a.re, b.re), im: sub_of(a.im, b.im) }
}

/// The complex product `(a.re * b.re - a.im * b.im, a.re * b.im + a.im * b.re)`.
pub open spec fn spec_mul(a: Complex, b: Complex) -> Complex {
    Complex {
        re: sub_of(mul_of(a.re, b.re), mul_of(a.im, b.im)),
        im: add_of(mul_of(a.re, b.im), mul_of(a.im, b.re)),
    }
}

/// The squared magnitude `re * re + im * im` of a complex number.
pub open spec fn spec_norm(z: Complex) -> num_bigfloat::BigFloat {
    add_of(mul_of(z.re, z.re), mul_of(z.im, z.im))
}

/// The complex quotient: `((a.re * b.re + a.im * b.im) / d, (a.im * b.re - a.re * b.im) / d)`
/// with `d` the squared magnitude of `b`. With a zero-magnitude divisor the
/// scalar division yields infinities or NaN, as the primitives define.
pub open spec fn spec_div(a: Complex, b: Complex) -> Complex {
    Complex {
        re: div_of(add_of(mul_of(a.re, b.re), mul_of(a.im, b.im)), spec_norm(b)),
        im: div_of(sub_of(mul_of(a.im, b.re), mul_of(a.re, b.im)), spec_norm(b)),
    }
}

/// The componentwise negation of a complex number.
pub open spec fn spec_neg(a: Complex) -> Complex {
    Complex { re: neg_of(a.re), im: neg_of(a.im) }
}

/// The complex conjugate: the imaginary part negated.
pub open spec fn spec_conj(a: Complex) -> Complex {
    Complex { re: a.re, im: neg_of(a.im) }
}

/// The rectangular form of the polar pair `(r, theta)`:
/// `(r * cos(theta), r * sin(theta))`.
pub open spec fn spec_from_polar(
    r: num_bigfloat::BigFloat,
    theta: num_bigfloat::BigFloat,
) -> Complex {
    Complex { re: mul_of(r, cos_of(theta)), im: mul_of(r, sin_of(theta)) }
}

/// The argument of a complex number: the four-quadrant arctangent of its
/// parts, in the range `(-pi, pi]`.
pub open spec fn spec_arg(z: Complex) -> num_bigfloat::BigFloat {
    atan2_of(z.im, z.re)
}

impl Complex {
    /// Create a new complex number.
    pub fn new(re: num_bigfloat::BigFloat, im: num_bigfloat::BigFloat) -> (z: Self)
        ensures
            z == (Complex { re, im }),
    {
        Self { re, im }
    }

    /// Return the complex number `i = sqrt(-1) = 0 + 1i`.
    pub fn i() -> (z: Self)
        ensures
            z == (Complex { re: from_int_of(0), im: from_int_of(1) }),
    {
        Self { re: big_from_i64(0), im: big_from_i64(1) }
    }

    /// Return the complex number `0 + 0i` (the origin).
    pub fn origin() -> (z: Self)
        ensures
            z == (Complex { re: from_int_of(0), im: from_int_of(0) }),
    {
        Self { re: big_from_i64(0), im: big_from_i64(0) }
    }

    /// Convert a polar form to a complex number.
    pub fn from_polar(r: num_bigfloat::BigFloat, theta: num_bigfloat::BigFloat) -> (z: Self)
        ensures
            z == spec_from_polar(r, theta),
    {
        let c = big_cos(theta);
        let s = big_sin(theta);
        Self { re: big_mul(r, c), im: big_mul(r, s) }
    }

    /// Return the real part of the complex number.
    /// Re(z) = Re(a + bi) = a
    pub fn re(&self) -> (r: num_bigfloat::BigFloat)
        ensures
            r == self.re,
    {
        self.re
    }

    /// Return the imaginary part of the complex number.
    /// Im(z) = Im(a + bi) = b
    pub fn im(&self) -> (r: num_bigfloat::BigFloat)
        ensures
            r == self.im,
    {
        self.im
    }

    /// Returns the squared magnitude `re * re + im * im` of the complex
    /// number (not the Euclidean magnitude, which is its square root).
    pub fn norm(&self) -> (r: num_bigfloat::BigFloat)
        ensures
            r == spec_norm(*self),
    {
        let rr = big_mul(self.re, self.re);
        let ii = big_mul(self.im, self.im);
        big_add(rr, ii)
    }

    /// Returns the argument of the complex number.
    pub fn arg(&self) -> (r: num_bigfloat::BigFloat)
        ensures
            r == spec_arg(*self),
    {
        big_atan2(self.im, self.re)
    }

    /// Returns the complex conjugate of the complex number.
    /// conj(z) = conj(a + bi) = a - bi
    ///
    /// Conjugation is an involution: the second clause lets every caller
    /// conclude that conjugating the result restores `self`.
    pub fn conj(&self) -> (z: Self)
        ensures
            z == spec_conj(*self),
            spec_conj(z) == *self,
    {
        Self { re: self.re, im: big_neg(self.im) }
    }

    /// Returns the polar form of the complex number: the Euclidean magnitude
    /// (the square root of the squared magnitude) and the argument.
    pub fn polar(&self) -> (p: Polar)
        ensures
            p == (Polar { r: sqrt_of(spec_norm(*self)), theta: spec_arg(*self) }),
    {
        let n = self.norm();
        Polar { r: big_sqrt(n), theta: self.arg() }
    }

    /// Complex exponential function: the polar form with radius `exp(re)`
    /// and angle `im`, since `e^(a + bi) = e^a * (cos b + i sin b)`.
    pub fn exp(&self) -> (z: Self)
        ensures
            z == spec_from_polar(exp_of(self.re), self.im),
    {
        let r = big_exp(self.re);
        Self::from_polar(r, self.im)
    }

    /// Complex logarithm function. Its real part is the logarithm of the
    /// squared magnitude, which is twice the real part of the principal
    /// branch: a deliberate convention of this library, pinned by a test.
    pub fn ln(&self) -> (z: Self)
        ensures
            z == (Complex { re: ln_of(spec_norm(*self)), im: spec_arg(*self) }),
    {
        let n = self.norm();
        Self { re: big_ln(n), im: self.arg() }
    }

    /// Complex square-root function: half the angle, the square root of the
    /// magnitude (the fourth root of the squared magnitude).
    pub fn sqrt(&self) -> (z: Self)
        ensures
            z == spec_from_polar(
                sqrt_of(sqrt_of(spec_norm(*self))),
                div_of(spec_arg(*self), from_int_of(2)),
            ),
    {
        let p = self.polar();
        let two = big_from_i64(2);
        let half_theta = big_div(p.theta, two);
        Self::from_polar(big_sqrt(p.r), half_theta)
    }

    /// Complex sine function:
    /// `sin(a + bi) = sin(a) cosh(b) + i cos(a) sinh(b)`.
    pub fn sin(&self) -> (z: Self)
        ensures
            z == (Complex {
                re: mul_of(sin_of(self.re), cosh_of(self.im)),
                im: mul_of(cos_of(self.re), sinh_of(self.im)),
            }),
    {
        let sa = big_sin(self.re);
        let ca = big_cos(self.re);
        let shb = big_sinh(self.im);
        let chb = big_cosh(self.im);
        Self { re: big_mul(sa, chb), im: big_mul(ca, shb) }
    }
}

impl Default for Complex {
    /// The default complex number is the origin, `0 + 0i`.
    fn default() -> (z: Self)
        ensures
            z == (Complex { re: from_int_of(0), im: from_int_of(0) }),
    {
        Self::origin()
    }
}

} // verus!
