//! Polar form of a complex number.

use vstd::prelude::*;

verus! {

/// Polar form of a complex number.
#[derive(Debug, Clone, Copy, PartialEq)]
pub struct Polar {
    /// The radius of the complex number.
    pub r: num_bigfloat::BigFloat,
    /// The angle of the complex number from the positive real axis.
    pub theta: num_bigfloat::BigFloat,
}

} // verus!
