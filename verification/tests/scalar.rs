use complex_lanes::{Complex, Polar};
use num_bigfloat::BigFloat;

fn bf(x: f64) -> BigFloat {
    BigFloat::from_f64(x)
}

fn close(a: BigFloat, b: BigFloat, eps: f64) -> bool {
    a.sub(&b).abs() < bf(eps)
}

#[test]
fn conjugate_is_an_involution() {
    let samples = vec![
        Complex::new(bf(0.0), bf(0.0)),
        Complex::new(bf(1.5), bf(-2.5)),
        Complex::new(bf(-3.0), bf(4.0)),
        Complex::new(bf(123.456), bf(-0.001)),
    ];
    for z in samples {
        assert_eq!(z.conj().conj(), z);
    }
}

#[test]
fn conjugate_negates_imaginary_part() {
    let z = Complex::new(bf(2.0), bf(3.0));
    assert_eq!(z.conj(), Complex::new(bf(2.0), bf(-3.0)));
}

#[test]
fn norm_is_sum_of_squares_and_nonnegative() {
    let samples = vec![
        Complex::new(bf(0.0), bf(0.0)),
        Complex::new(bf(3.0), bf(4.0)),
        Complex::new(bf(-2.5), bf(1.5)),
        Complex::new(bf(-1.0), bf(-1.0)),
    ];
    for z in samples {
        let expected = z.re().mul(&z.re()).add(&z.im().mul(&z.im()));
        assert_eq!(z.norm(), expected);
        assert!(!z.norm().is_negative());
    }
    assert_eq!(Complex::new(bf(3.0), bf(4.0)).norm(), bf(25.0));
}

#[test]
fn division_then_multiplication_recovers_dividend() {
    let pairs = vec![
        (Complex::new(bf(1.0), bf(2.0)), Complex::new(bf(3.0), bf(4.0))),
        (Complex::new(bf(-5.5), bf(0.25)), Complex::new(bf(0.5), bf(-1.5))),
        (Complex::new(bf(7.0), bf(-3.0)), Complex::new(bf(0.0), bf(2.0))),
    ];
    for (a, b) in pairs {
        let r = a.div(b).mul(b);
        assert!(close(r.re(), a.re(), 1e-30));
        assert!(close(r.im(), a.im(), 1e-30));
    }
}

#[test]
fn polar_round_trip_recovers_radius_and_angle() {
    let cases = vec![(2.0, 0.5), (1.0, -2.0), (0.75, 3.0)];
    for (r, theta) in cases {
        let z = Complex::from_polar(bf(r), bf(theta));
        let p: Polar = z.polar();
        assert!(close(p.r, bf(r), 1e-30));
        assert!(close(p.theta, bf(theta), 1e-30));
    }
}

#[test]
fn multiplication_and_division_scenario() {
    // (1 + 2i) * (3 + 4i) = (-5 + 10i)
    let a = Complex::new(bf(1.0), bf(2.0));
    let b = Complex::new(bf(3.0), bf(4.0));
    assert_eq!(a.mul(b), Complex::new(bf(-5.0), bf(10.0)));

    // (1 + 2i) / (1 + 2i) = (1 + 0i)
    assert_eq!(a.div(a), Complex::new(bf(1.0), bf(0.0)));
}

#[test]
fn i_squared_is_minus_one() {
    let i = Complex::i();
    assert_eq!(i.mul(i), Complex::new(bf(-1.0), bf(0.0)));
}

#[test]
fn arg_of_origin_is_defined_and_zero() {
    assert_eq!(Complex::origin().arg(), bf(0.0));
}

#[test]
fn arg_covers_the_quadrants() {
    let quarter_pi = num_bigfloat::PI.div(&bf(4.0));
    assert!(close(Complex::new(bf(1.0), bf(1.0)).arg(), quarter_pi, 1e-30));
    assert!(close(Complex::new(bf(-1.0), bf(0.0)).arg(), num_bigfloat::PI, 1e-30));
    assert!(close(Complex::new(bf(0.0), bf(1.0)).arg(), num_bigfloat::HALF_PI, 1e-30));
}

#[test]
fn constructors_and_accessors() {
    let z = Complex::new(bf(4.5), bf(-1.25));
    assert_eq!(z.re(), bf(4.5));
    assert_eq!(z.im(), bf(-1.25));

    let i = Complex::i();
    assert_eq!(i.re(), num_bigfloat::ZERO);
    assert_eq!(i.im(), num_bigfloat::ONE);

    assert_eq!(Complex::origin(), Complex::new(bf(0.0), bf(0.0)));
    assert_eq!(Complex::default(), Complex::origin());
}

#[test]
fn negation_and_componentwise_sums() {
    let a = Complex::new(bf(1.0), bf(2.0));
    let b = Complex::new(bf(3.0), bf(4.0));
    assert_eq!(a.neg(), Complex::new(bf(-1.0), bf(-2.0)));
    assert_eq!(a.add(b), Complex::new(bf(4.0), bf(6.0)));
    assert_eq!(b.sub(a), Complex::new(bf(2.0), bf(2.0)));
}

#[test]
fn compound_assignment_replaces_the_value() {
    let b = Complex::new(bf(3.0), bf(4.0));

    let mut z = Complex::new(bf(1.0), bf(2.0));
    z.add_assign(b);
    assert_eq!(z, Complex::new(bf(4.0), bf(6.0)));

    let mut z = Complex::new(bf(1.0), bf(2.0));
    z.sub_assign(b);
    assert_eq!(z, Complex::new(bf(-2.0), bf(-2.0)));

    let mut z = Complex::new(bf(1.0), bf(2.0));
    z.mul_assign(b);
    assert_eq!(z, Complex::new(bf(-5.0), bf(10.0)));

    let mut z = Complex::new(bf(-5.0), bf(10.0));
    z.div_assign(b);
    assert_eq!(z, Complex::new(bf(1.0), bf(2.0)));
}

#[test]
fn exponential_of_a_real_number() {
    // exp(1 + 0i) = (e, 0); the imaginary part is exactly e * sin(0) = 0.
    let z = Complex::new(bf(1.0), bf(0.0)).exp();
    assert!(close(z.re(), num_bigfloat::E, 1e-30));
    assert_eq!(z.im(), num_bigfloat::ZERO);
}

#[test]
fn logarithm_real_part_is_log_of_squared_magnitude() {
    // The real part of ln(e + 0i) is ln(norm) = ln(e^2) = 2, twice the
    // principal-branch value 1: the library's convention, pinned here.
    let z = Complex::new(num_bigfloat::E, bf(0.0)).ln();
    assert!(close(z.re(), bf(2.0), 1e-30));
    assert_eq!(z.im(), Complex::new(num_bigfloat::E, bf(0.0)).arg());
}

#[test]
fn square_root_of_a_negative_real() {
    // sqrt(-4 + 0i) = 2i via half the angle and the root of the magnitude.
    let z = Complex::new(bf(-4.0), bf(0.0)).sqrt();
    assert!(close(z.re(), bf(0.0), 1e-30));
    assert!(close(z.im(), bf(2.0), 1e-30));
}

#[test]
fn sine_of_a_complex_number() {
    // sin(1 + 2i) = sin(1) cosh(2) + i cos(1) sinh(2).
    let z = Complex::new(bf(1.0), bf(2.0)).sin();
    assert!(close(z.re(), bf(3.165778513216168), 1e-12));
    assert!(close(z.im(), bf(1.959601041421606), 1e-12));
}

#[test]
fn from_polar_reflects_negative_radius() {
    // A negative radius lands at the point reflected through the origin.
    let p = Complex::from_polar(bf(2.0), bf(0.5));
    let n = Complex::from_polar(bf(-2.0), bf(0.5));
    assert_eq!(n.re(), p.re().inv_sign());
    assert_eq!(n.im(), p.im().inv_sign());
}
