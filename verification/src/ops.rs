//! Arithmetic on scalar complex numbers: negation, addition, subtraction,
//! multiplication and division, each with a compound-assignment form that
//! replaces the whole value.

use vstd::prelude::*;

use crate::complex::{spec_add, spec_div, spec_mul, spec_neg, spec_sub, Complex};
use crate::primitives::{big_add, big_div, big_mul, big_neg, big_sub};

verus! {

impl Complex {
    /// Componentwise negation: `-(a + bi) = -a - bi`.
    pub fn neg(self) -> (z: Complex)
        ensures
            z == spec_neg(self),
    {
        Complex { re: big_neg(self.re), im: big_neg(self.im) }
    }

    /// Componentwise addition.
    pub fn add(self, other: Complex) -> (z: Complex)
        ensures
            z == spec_add(self, other),
    {
        Complex::new(big_add(self.re, other.re), big_add(self.im, other.im))
    }

    /// Componentwise addition in place.
    pub fn add_assign(&mut self, other: Complex)
        ensures
            *final(self) == spec_add(*old(self), other),
    {
        *self = Complex::new(big_add(self.re, other.re), big_add(self.im, other.im));
    }

    /// Componentwise subtraction.
    pub fn sub(self, other: Complex) -> (z: Complex)
        ensures
            z == spec_sub(self, other),
    {
        Complex::new(big_sub(self.re, other.re), big_sub(self.im, other.im))
    }

    /// Componentwise subtraction in place.
    pub fn sub_assign(&mut self, other: Complex)
        ensures
            *final(self) == spec_sub(*old(self), other),
    {
        *self = Complex::new(big_sub(self.re, other.re), big_sub(self.im, other.im));
    }

    /// Complex multiplication: `(a + bi)(c + di) = (ac - bd) + (ad + bc)i`.
    pub fn mul(self, other: Complex) -> (z: Complex)
        ensures
            z == spec_mul(self, other),
    {
        Complex::new(
            big_sub(big_mul(self.re, other.re), big_mul(self.im, other.im)),
            big_add(big_mul(self.re, other.im), big_mul(self.im, other.re)),
        )
    }

    /// Complex multiplication in place.
    pub fn mul_assign(&mut self, other: Complex)
        ensures
            *final(self) == spec_mul(*old(self), other),
    {
        *self = Complex::new(
            big_sub(big_mul(self.re, other.re), big_mul(self.im, other.im)),
            big_add(big_mul(self.re, other.im), big_mul(self.im, other.re)),
        );
    }

    /// Complex division. The denominator is the divisor's squared magnitude;
    /// when it is zero the scalar division yields infinities or NaN in the
    /// result's parts, as the primitives define, never a panic.
    pub fn div(self, other: Complex) -> (z: Complex)
        ensures
            z == spec_div(self, other),
    {
        let denom = other.norm();
        Complex::new(
            big_div(big_add(big_mul(self.re, other.re), big_mul(self.im, other.im)), denom),
            big_div(big_sub(big_mul(self.im, other.re), big_mul(self.re, other.im)), denom),
        )
    }

    /// Complex division in place.
    pub fn div_assign(&mut self, other: Complex)
        ensures
            *final(self) == spec_div(*old(self), other),
    {
        let denom = other.norm();
        *self = Complex::new(
            big_div(big_add(big_mul(self.re, other.re), big_mul(self.im, other.im)), denom),
            big_div(big_sub(big_mul(self.im, other.re), big_mul(self.re, other.im)), denom),
        );
    }
}

} // verus!
