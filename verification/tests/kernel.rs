use std::f64::consts::PI;
use tracer_kernel::matrix::{Matrix, MatrixError};
use tracer_kernel::roughly::RoughlyEqual;
use tracer_kernel::scalar::Scalar;
use tracer_kernel::tuple::{point, vector, Vector};

fn s(v: f64) -> Scalar {
    Scalar::new((v * 1_000_000_000.0).round() as i64)
}

fn mat(rows: usize, cols: usize, values: &[f64]) -> Matrix {
    let scalars: Vec<Scalar> = values.iter().map(|v| s(*v)).collect();
    Matrix::with_values(rows, cols, scalars).unwrap()
}

#[test]
fn inverse_of_inverse_is_original() {
    let a = mat(
        4,
        4,
        &[
            8., -5., 9., 2., 7., 5., 6., 1., -6., 0., 9., 6., -3., 0., -9., -4.,
        ],
    );
    let b = a.inverse().unwrap();
    assert!(b.inverse().unwrap().roughly_equal(&a));
}

#[test]
fn matrix_times_inverse_is_identity() {
    let a = mat(
        4,
        4,
        &[
            8., -5., 9., 2., 7., 5., 6., 1., -6., 0., 9., 6., -3., 0., -9., -4.,
        ],
    );
    let b = a.inverse().unwrap();
    assert!((a * b).roughly_equal(&Matrix::identity4()));
}

#[test]
fn product_times_inverse_recovers_factor() {
    let a = mat(
        4,
        4,
        &[
            3., -9., 7., 3., 3., -8., 2., -9., -4., 4., 4., 1., -6., 5., -1., 1.,
        ],
    );
    let b = mat(
        4,
        4,
        &[
            8., 2., 2., 2., 3., -1., 7., 0., 7., 0., 5., 4., 6., -2., 0., 5.,
        ],
    );
    let c = a.clone() * b.clone();
    assert!((c * b.inverse().unwrap()).roughly_equal(&a));
}

#[test]
fn transpose_twice_is_original() {
    let m = mat(2, 3, &[1., 2., 3., 4., 5., 6.]);
    assert_eq!(m.transpose().transpose(), m);
}

#[test]
fn normalize_gives_unit_magnitude() {
    let v = vector(s(-2.5), s(7.25), s(0.125));
    assert!(v.normalize().magnitude().roughly_equal(&s(1.0)));
}

#[test]
fn dot_is_commutative() {
    let a = vector(s(1.5), s(-2.25), s(3.75));
    let b = vector(s(-4.5), s(0.5), s(2.));
    assert_eq!(a.dot(&b), b.dot(&a));
}

#[test]
fn cross_is_anticommutative() {
    let a = vector(s(1.5), s(-2.25), s(3.75));
    let b = vector(s(-4.5), s(0.5), s(2.));
    let negated: Vector = (-(b.cross(&a).0)).into();
    assert_eq!(a.cross(&b), negated);
}

#[test]
fn translation_fixes_arbitrary_vector() {
    let t = Matrix::translation(s(12.5), s(-0.75), s(3.));
    let v = vector(s(0.25), s(-8.), s(19.5));
    assert_eq!(t * v, v);
}

#[test]
fn add_then_subtract_vector_returns_point() {
    let p = point(s(3.25), s(-4.), s(11.5));
    let v = vector(s(-7.), s(2.5), s(0.75));
    assert_eq!((p + v) - v, p);
}

#[test]
fn with_values_rejects_wrong_length() {
    let vals = vec![Scalar::zero(), Scalar::one(), Scalar::zero()];
    assert_eq!(
        Matrix::with_values(2, 2, vals).unwrap_err(),
        MatrixError::ShapeMismatch
    );
}

#[test]
fn matmul_rejects_incompatible_shapes() {
    let a = mat(2, 3, &[1., 2., 3., 4., 5., 6.]);
    let b = mat(2, 3, &[1., 2., 3., 4., 5., 6.]);
    assert_eq!(a.matmul(&b).unwrap_err(), MatrixError::DimensionMismatch);
}

#[test]
fn inverse_rejects_singular_matrix() {
    let a = mat(
        4,
        4,
        &[
            -4., 2., -2., -3., 9., 6., 2., 6., 0., -5., 1., -5., 0., 0., 0., 0.,
        ],
    );
    assert_eq!(a.inverse().unwrap_err(), MatrixError::SingularMatrix);
}

#[test]
fn constructors_set_homogeneous_coordinate() {
    let p = point(s(1.), s(2.), s(3.));
    let v = vector(s(1.), s(2.), s(3.));
    assert!(p.0.is_point());
    assert!(!p.0.is_vector());
    assert!(v.0.is_vector());
    assert!(!v.0.is_point());
}

#[test]
fn sqrt_of_perfect_square_is_exact() {
    assert_eq!(s(4.0).sqrt(), s(2.0));
    assert_eq!(s(2.25).sqrt(), s(1.5));
    assert_eq!(s(0.0).sqrt(), s(0.0));
}

#[test]
fn full_turn_rotation_returns_point() {
    let p = point(s(2.), s(-3.), s(7.));
    let r = Matrix::rotation_x(s(2. * PI)) * p;
    assert_eq!(r, p);
}

#[test]
fn rotations_at_common_angles_match_cosine_sine() {
    let m = Matrix::rotation_z(s(PI / 6.));
    assert!(m.value_at(0, 0).roughly_equal(&s((PI / 6.).cos())));
    assert!(m.value_at(1, 0).roughly_equal(&s((PI / 6.).sin())));
    assert!(m.value_at(0, 1).roughly_equal(&s(-(PI / 6.).sin())));
}

#[test]
fn zero_scalar_matrix_is_all_zero() {
    let m = Matrix::new(3, 2);
    for r in 0..3 {
        for c in 0..2 {
            assert_eq!(m.value_at(r, c), Scalar::zero());
        }
    }
}
