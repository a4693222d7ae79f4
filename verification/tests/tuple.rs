use std::f64::consts::PI;
use tracer_kernel::roughly::RoughlyEqual;
use tracer_kernel::scalar::Scalar;
use tracer_kernel::tuple::{point, vector, Tuple};

fn s(v: f64) -> Scalar {
    Scalar::new((v * 1_000_000_000.0).round() as i64)
}

fn assert_rough(a: Scalar, b: Scalar) {
    assert!(a.roughly_equal(&b));
}

#[test]
fn w1_tuple_is_a_point() {
    let t = Tuple::new(s(4.3), s(-4.2), s(3.1), s(1.0));

    assert_rough(s(4.3), t.x());
    assert_rough(s(-4.2), t.y());
    assert_rough(s(3.1), t.z());
    assert_rough(s(1.0), t.w());

    assert!(t.is_point());
    assert!(!t.is_vector());
}

#[test]
fn w0_tuple_is_a_vector() {
    let t = Tuple::new(s(4.3), s(-4.2), s(3.1), s(0.0));

    assert_rough(s(4.3), t.x());
    assert_rough(s(-4.2), t.y());
    assert_rough(s(3.1), t.z());
    assert_rough(s(0.0), t.w());

    assert!(!t.is_point());
    assert!(t.is_vector());
}

#[test]
fn add_tuples() {
    let a1 = Tuple::new(s(3.0), s(-2.), s(5.), s(1.));
    let a2 = Tuple::new(s(-2.), s(3.), s(1.), s(0.));

    assert_eq!(a1 + a2, Tuple::new(s(1.), s(1.), s(6.), s(1.)))
}

#[test]
fn subtract_points() {
    let a1 = point(s(3.), s(2.), s(1.));
    let a2 = point(s(5.), s(6.), s(7.));

    assert_eq!(a1 - a2, vector(s(-2.), s(-4.), s(-6.)))
}

#[test]
fn subtract_vector_from_point() {
    let p = point(s(3.), s(2.), s(1.));
    let v = vector(s(5.), s(6.), s(7.));

    assert_eq!(p - v, point(s(-2.), s(-4.), s(-6.)))
}

#[test]
fn subtract_two_vectors() {
    let v1 = vector(s(3.), s(2.), s(1.));
    let v2 = vector(s(5.), s(6.), s(7.));
    assert_eq!(v1 - v2, vector(s(-2.), s(-4.), s(-6.)));
}

#[test]
fn compare_tuples() {
    assert_eq!(
        Tuple::new(s(2.), s(3.), s(-4.), s(0.4 * 0.1)),
        Tuple::new(s(2.), s(3.), s(-4.), s(0.04)),
    );
}

#[test]
fn subtract_from_zero_vector() {
    let zero = vector(s(0.), s(0.), s(0.));
    let v = vector(s(1.), s(-2.), s(3.));
    assert_eq!(zero - v, vector(s(-1.), s(2.), s(-3.)));
}

#[test]
fn negate_tuple() {
    let a = Tuple::new(s(1.), s(-2.), s(3.), s(-4.));
    assert_eq!(-a, Tuple::new(s(-1.), s(2.), s(-3.), s(4.)));
}

#[test]
fn multiply_tuple_and_scalar() {
    let a = Tuple::new(s(1.), s(-2.), s(3.), s(-4.));
    assert_eq!(a * s(3.5), Tuple::new(s(3.5), s(-7.), s(10.5), s(-14.)));
}

#[test]
fn multiply_tuple_and_fraction() {
    let a = Tuple::new(s(1.), s(-2.), s(3.), s(-4.));
    assert_eq!(a * s(0.5), Tuple::new(s(0.5), s(-1.), s(1.5), s(-2.)));
}

#[test]
fn divide_tuple_by_scalar() {
    let a = Tuple::new(s(1.), s(-2.), s(3.), s(-4.));
    assert_eq!(a / s(2.0), Tuple::new(s(0.5), s(-1.), s(1.5), s(-2.)));
}

#[test]
fn magnitude_tests() {
    assert_rough(vector(s(0.0), s(1.0), s(0.0)).magnitude(), s(1.0));
    assert_rough(vector(s(0.0), s(0.0), s(1.0)).magnitude(), s(1.0));
    assert_rough(vector(s(1.0), s(2.0), s(3.0)).magnitude(), s((14.0_f64).sqrt()));
    assert_rough(vector(s(-1.0), s(-2.0), s(-3.0)).magnitude(), s((14.0_f64).sqrt()));
}

#[test]
fn normalization_tests() {
    assert_eq!(vector(s(4.), s(0.), s(0.)).normalize(), vector(s(1.), s(0.), s(0.)));
    assert_eq!(
        vector(s(1.), s(2.), s(3.)).normalize(),
        vector(
            s(1. / 14_f64.sqrt()),
            s(2. / 14_f64.sqrt()),
            s(3. / 14_f64.sqrt())
        )
    );
    assert_rough(vector(s(1.), s(2.), s(3.)).normalize().magnitude(), s(1.0));
}

#[test]
fn dot_test() {
    let a = vector(s(1.), s(2.), s(3.));
    let b = vector(s(2.), s(3.), s(4.));

    assert_rough(a.dot(&b), s(20.0));
}

#[test]
fn cross_test() {
    let a = vector(s(1.), s(2.), s(3.));
    let b = vector(s(2.), s(3.), s(4.));
    assert_eq!(a.cross(&b), vector(s(-1.), s(2.), s(-1.)));
    assert_eq!(b.cross(&a), vector(s(1.), s(-2.), s(1.)));
}

#[test]
fn tuple_test_chained_transformation_calls() {
    let p = point(s(1.), s(0.), s(1.))
        .rotate_x(s(PI / 2.))
        .scale(s(5.), s(5.), s(5.))
        .translate(s(10.), s(5.), s(7.));

    assert_eq!(p, point(s(15.), s(0.), s(7.)));
}
