//! A complex-number library with a scalar type and a lane-vectorized batch
//! type, over an opaque software floating-point scalar.

mod complex;
mod complex_simd;
mod ops;
mod polar;
mod primitives;

pub use complex::{
    spec_add, spec_arg, spec_conj, spec_div, spec_from_polar, spec_mul, spec_neg, spec_norm,
    spec_sub, Complex,
};
pub use complex_simd::{
    chunk_complex, elementwise_add, elementwise_div, elementwise_mul, elementwise_sub,
    lemma_chunk_elementwise, lemma_elementwise_lane, ComplexSIMD,
};
pub use polar::Polar;
pub use primitives::{
    add_of, atan2_of, cos_of, cosh_of, div_of, exp_of, from_int_of, ln_of, mul_of, neg_of, sin_of,
    sinh_of, sqrt_of, sub_of,
};
