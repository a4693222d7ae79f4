use std::f64::consts::PI;
use tracer_kernel::matrix::Matrix;
use tracer_kernel::roughly::RoughlyEqual;
use tracer_kernel::scalar::Scalar;
use tracer_kernel::tuple::{point, vector, Point};

fn s(v: f64) -> Scalar {
    Scalar::new((v * 1_000_000_000.0).round() as i64)
}

fn mat(rows: usize, cols: usize, values: &[f64]) -> Matrix {
    let scalars: Vec<Scalar> = values.iter().map(|v| s(*v)).collect();
    Matrix::with_values(rows, cols, scalars).unwrap()
}

fn assert_rough(a: Scalar, b: Scalar) {
    assert!(a.roughly_equal(&b));
}

#[test]
fn test_4x4_matrix() {
    let m = mat(
        4,
        4,
        &[
            1., 2., 3., 4., 5.5, 6.5, 7.5, 8.5, 9., 10., 11., 12., 13.5, 14.5, 15.5, 16.5,
        ],
    );

    assert_rough(m.value_at(0, 0), s(1.0));
    assert_rough(m.value_at(0, 3), s(4.0));
    assert_rough(m.value_at(1, 0), s(5.5));
    assert_rough(m.value_at(1, 2), s(7.5));
    assert_rough(m.value_at(2, 2), s(11.));
    assert_rough(m.value_at(3, 0), s(13.5));
    assert_rough(m.value_at(3, 2), s(15.5));
}

#[test]
fn test_2x2_matrix() {
    let m = mat(2, 2, &[-3., 5., 1., -2.]);
    assert_rough(m.value_at(0, 0), s(-3.0));
    assert_rough(m.value_at(0, 1), s(5.0));
    assert_rough(m.value_at(1, 0), s(1.0));
    assert_rough(m.value_at(1, 1), s(-2.0));
}

#[test]
fn test_3x3_matrix() {
    let m = mat(3, 3, &[-3., 5., 0., 1., -2., -7., 0., 1., 1.]);
    assert_rough(m.value_at(0, 0), s(-3.0));
    assert_rough(m.value_at(1, 1), s(-2.0));
    assert_rough(m.value_at(2, 2), s(1.0));
}

#[test]
fn test_identical_matrices() {
    let m1 = mat(
        4,
        4,
        &[
            1., 2., 3., 4., 5., 6., 7., 8., 9., 8., 7., 6., 5., 4., 3., 2.,
        ],
    );
    let m2 = mat(
        4,
        4,
        &[
            1., 2., 3., 4., 5., 6., 7., 8., 9., 8., 7., 6., 5., 4., 3., 2.,
        ],
    );

    assert_eq!(m1, m2);
}

#[test]
fn test_different_matrices() {
    let m1 = mat(
        4,
        4,
        &[
            1., 2., 3., 4., 5., 6., 7., 8., 9., 8., 7., 6., 5., 4., 3., 2.,
        ],
    );
    let m2 = mat(
        4,
        4,
        &[
            2., 3., 4., 5., 6., 7., 8., 9., 8., 7., 6., 5., 4., 3., 2., 1.,
        ],
    );

    assert_ne!(m1, m2);
}

#[test]
fn test_matrix_multiplication() {
    let m1 = mat(
        4,
        4,
        &[
            1., 2., 3., 4., 5., 6., 7., 8., 9., 8., 7., 6., 5., 4., 3., 2.,
        ],
    );

    let m2 = mat(
        4,
        4,
        &[
            -2., 1., 2., 3., 3., 2., 1., -1., 4., 3., 6., 5., 1., 2., 7., 8.,
        ],
    );

    assert_eq!(
        (m1 * m2),
        mat(
            4,
            4,
            &[
                20., 22., 50., 48., 44., 54., 114., 108., 40., 58., 110., 102., 16., 26., 46.,
                42.,
            ],
        )
    );
}

#[test]
fn matrix_multiplied_with_tuple() {
    let m1 = mat(
        4,
        4,
        &[
            1., 2., 3., 4., 2., 4., 4., 2., 8., 6., 4., 1., 0., 0., 0., 1.,
        ],
    );
    let t = Point::new(s(1.), s(2.), s(3.));

    assert_eq!(m1 * t, Point::new(s(18.), s(24.), s(33.)));
}

#[test]
fn matrix_multiplied_with_identity() {
    let m1 = mat(
        4,
        4,
        &[
            0., 1., 2., 4., 1., 2., 4., 8., 2., 4., 8., 16., 4., 8., 16., 32.,
        ],
    );
    assert_eq!(m1.matmul(&Matrix::identity4()).unwrap(), m1);
    assert_eq!(m1.clone() * Matrix::identity4(), m1);
}

#[test]
fn matrix_transposition() {
    let m1 = mat(
        4,
        4,
        &[
            0., 9., 3., 0., 9., 8., 0., 8., 1., 8., 5., 3., 0., 0., 5., 8.,
        ],
    );

    let transposed = mat(
        4,
        4,
        &[
            0., 9., 1., 0., 9., 8., 8., 0., 3., 0., 5., 5., 0., 8., 3., 8.,
        ],
    );

    assert_eq!(m1.transpose(), transposed);
}

#[test]
fn transpose_identity_matrix() {
    assert_eq!(Matrix::identity4().transpose(), Matrix::identity4());
}

#[test]
fn test_determinant() {
    assert_rough(mat(2, 2, &[1., 5., -3., 2.]).determinant(), s(17.));
}

#[test]
fn test_submatrix_3x3() {
    let m1 = mat(3, 3, &[1., 5., 0., -3., 2., 7., 0., 6., -3.]);
    let expected = mat(2, 2, &[-3., 2., 0., 6.]);

    assert_eq!(m1.submatrix(0, 2), expected);
}

#[test]
fn test_submatrix_4x4() {
    let m1 = mat(
        4,
        4,
        &[
            -6., 1., 1., 6., -8., 5., 8., 6., -1., 0., 8., 2., -7., 1., -1., 1.,
        ],
    );
    let expected = mat(3, 3, &[-6., 1., 6., -8., 8., 6., -7., -1., 1.]);

    assert_eq!(m1.submatrix(2, 1), expected);
}

#[test]
fn test_minor() {
    let a = mat(3, 3, &[3., 5., 0., 2., -1., -7., 6., -1., 5.]);
    let b = a.submatrix(1, 0);
    assert_rough(b.determinant(), s(25.));
    assert_rough(a.minor(1, 0), s(25.));
}

#[test]
fn test_cofactor() {
    let a = mat(3, 3, &[3., 5., 0., 2., -1., -7., 6., -1., 5.]);
    assert_rough(a.minor(0, 0), s(-12.));
    assert_rough(a.cofactor(0, 0), s(-12.));
    assert_rough(a.minor(1, 0), s(25.));
    assert_rough(a.cofactor(1, 0), s(-25.));
}

#[test]
fn test_determinant_3x3() {
    let a = mat(3, 3, &[1., 2., 6., -5., 8., -4., 2., 6., 4.]);
    assert_rough(a.cofactor(0, 0), s(56.));
    assert_rough(a.cofactor(0, 1), s(12.));
    assert_rough(a.cofactor(0, 2), s(-46.));
    assert_rough(a.determinant(), s(-196.));
}

#[test]
fn test_determinant_4x4() {
    let a = mat(
        4,
        4,
        &[
            -2., -8., 3., 5., -3., 1., 7., 3., 1., 2., -9., 6., -6., 7., 7., -9.,
        ],
    );
    assert_rough(a.cofactor(0, 0), s(690.));
    assert_rough(a.cofactor(0, 1), s(447.));
    assert_rough(a.cofactor(0, 2), s(210.));
    assert_rough(a.cofactor(0, 3), s(51.));
    assert_rough(a.determinant(), s(-4071.));
}

#[test]
fn test_invertible() {
    let a = mat(
        4,
        4,
        &[
            6., 4., 4., 4., 5., 5., 7., 6., 4., -9., 3., -7., 9., 1., 7., -6.,
        ],
    );
    assert_rough(a.determinant(), s(-2120.));
    assert_eq!(a.invertible(), true);
}

#[test]
fn test_notinvertible() {
    let a = mat(
        4,
        4,
        &[
            -4., 2., -2., -3., 9., 6., 2., 6., 0., -5., 1., -5., 0., 0., 0., 0.,
        ],
    );
    assert_rough(a.determinant(), s(0.));
    assert_eq!(a.invertible(), false);
}

#[test]
fn test_inverse() {
    let a = mat(
        4,
        4,
        &[
            -5., 2., 6., -8., 1., -5., 1., 8., 7., 7., -6., -7., 1., -3., 7., 4.,
        ],
    );
    let b = a.inverse().unwrap();

    assert_rough(a.determinant(), s(532.));
    assert_rough(a.cofactor(2, 3), s(-160.));
    assert_rough(b.value_at(3, 2), s(-160. / 532.));
    assert_rough(a.cofactor(3, 2), s(105.));
    assert_rough(b.value_at(2, 3), s(105. / 532.));

    assert!(b.roughly_equal(&mat(
        4,
        4,
        &[
            0.21805, 0.45113, 0.24060, -0.04511, -0.80827, -1.45677, -0.44361, 0.52068, -0.07895,
            -0.22368, -0.05263, 0.19737, -0.52256, -0.81391, -0.30075, 0.30639
        ]
    )));
}

#[test]
fn test_approx_eq() {
    println!(
        "Ulps: {}",
        (0.21804511278195488_f64.to_bits() as i64 - 0.21805_f64.to_bits() as i64).abs()
    );
    assert!(s(0.21804511278195488).roughly_equal(&s(0.21805)));
    println!(
        "Ulps: {}",
        ((-0.045112781954887216_f64).to_bits() as i64 - (-0.04511_f64).to_bits() as i64).abs()
    );
    assert!(s(-0.045112781954887216).roughly_equal(&s(-0.04511)));
}

#[test]
fn test_translation() {
    let transform = Matrix::translation(s(5.), s(-3.), s(2.));
    let p = point(s(-3.), s(4.), s(5.));
    assert_eq!(transform * p, point(s(2.), s(1.), s(7.)));
}

#[test]
fn test_translation_inverse() {
    let transform = Matrix::translation(s(5.), s(-3.), s(2.)).inverse().unwrap();
    let p = point(s(-3.), s(4.), s(5.));
    assert_eq!(transform * p, point(s(-8.), s(7.), s(3.)));
}

#[test]
fn test_translation_doesnt_affect_vectors() {
    let transform = Matrix::translation(s(5.), s(-3.), s(2.));
    let v = vector(s(-3.), s(4.), s(5.));
    assert_eq!(transform * v, v);
}

#[test]
fn test_scaling_point() {
    let transform = Matrix::scaling(s(2.), s(3.), s(4.));
    let p = point(s(-4.), s(6.), s(8.));
    assert_eq!(transform * p, point(s(-8.), s(18.), s(32.)));
}

#[test]
fn test_scaling_vector() {
    let transform = Matrix::scaling(s(2.), s(3.), s(4.));
    let v = vector(s(-4.), s(6.), s(8.));
    assert_eq!(transform * v, vector(s(-8.), s(18.), s(32.)));
}

#[test]
fn test_scaling_inverse() {
    let transform = Matrix::scaling(s(2.), s(3.), s(4.)).inverse().unwrap();
    let v = vector(s(-4.), s(6.), s(8.));
    assert_eq!(transform * v, vector(s(-2.), s(2.), s(2.)));
}

#[test]
fn test_reflection() {
    let transform = Matrix::scaling(s(-1.), s(1.), s(1.));
    let p = point(s(2.), s(3.), s(4.));
    assert_eq!(transform * p, point(s(-2.), s(3.), s(4.)));
}

#[test]
fn test_rotation_x() {
    let p = point(s(0.), s(1.), s(0.));
    let half_quarter = Matrix::rotation_x(s(PI / 4.));
    let full_quarter = Matrix::rotation_x(s(PI / 2.));
    assert_eq!(
        half_quarter * p,
        point(s(0.), s(2_f64.sqrt() / 2.), s(2_f64.sqrt() / 2.))
    );
    assert_eq!(full_quarter * p, point(s(0.), s(0.), s(1.)));
}

#[test]
fn test_rotation_x_inverse() {
    let p = point(s(0.), s(1.), s(0.));
    let half_quarter = Matrix::rotation_x(s(PI / 4.)).inverse().unwrap();
    assert_eq!(
        half_quarter * p,
        point(s(0.), s(2_f64.sqrt() / 2.), s(-(2_f64.sqrt()) / 2.))
    );
}

#[test]
fn test_rotation_y() {
    let p = point(s(0.), s(0.), s(1.));
    let half_quarter = Matrix::rotation_y(s(PI / 4.));
    let full_quarter = Matrix::rotation_y(s(PI / 2.));
    assert_eq!(
        half_quarter * p,
        point(s(2_f64.sqrt() / 2.), s(0.), s(2_f64.sqrt() / 2.))
    );
    assert_eq!(full_quarter * p, point(s(1.), s(0.), s(0.)));
}

#[test]
fn test_rotation_z() {
    let p = point(s(0.), s(1.), s(0.));
    let half_quarter = Matrix::rotation_z(s(PI / 4.));
    let full_quarter = Matrix::rotation_z(s(PI / 2.));
    assert_eq!(
        half_quarter * p,
        point(s(-(2_f64.sqrt()) / 2.), s(2_f64.sqrt() / 2.), s(0.))
    );
    assert_eq!(full_quarter * p, point(s(-1.), s(0.), s(0.)));
}

#[test]
fn test_shearing_xy() {
    let t = Matrix::shearing(s(1.), s(0.), s(0.), s(0.), s(0.), s(0.));
    let p = point(s(2.), s(3.), s(4.));
    assert_eq!(t * p, point(s(5.), s(3.), s(4.)))
}

#[test]
fn test_shearing_xz() {
    let t = Matrix::shearing(s(0.), s(1.), s(0.), s(0.), s(0.), s(0.));
    let p = point(s(2.), s(3.), s(4.));
    assert_eq!(t * p, point(s(6.), s(3.), s(4.)))
}

#[test]
fn test_shearing_yx() {
    let t = Matrix::shearing(s(0.), s(0.), s(1.), s(0.), s(0.), s(0.));
    let p = point(s(2.), s(3.), s(4.));
    assert_eq!(t * p, point(s(2.), s(5.), s(4.)))
}

#[test]
fn test_shearing_yz() {
    let t = Matrix::shearing(s(0.), s(0.), s(0.), s(1.), s(0.), s(0.));
    let p = point(s(2.), s(3.), s(4.));
    assert_eq!(t * p, point(s(2.), s(7.), s(4.)))
}

#[test]
fn test_shearing_zx() {
    let t = Matrix::shearing(s(0.), s(0.), s(0.), s(0.), s(1.), s(0.));
    let p = point(s(2.), s(3.), s(4.));
    assert_eq!(t * p, point(s(2.), s(3.), s(6.)))
}

#[test]
fn test_shearing_zy() {
    let t = Matrix::shearing(s(0.), s(0.), s(0.), s(0.), s(0.), s(1.));
    let p = point(s(2.), s(3.), s(4.));
    assert_eq!(t * p, point(s(2.), s(3.), s(7.)))
}

#[test]
fn test_transformations_in_sequence() {
    let p = point(s(1.), s(0.), s(1.));
    let a = Matrix::rotation_x(s(PI / 2.));
    let b = Matrix::scaling(s(5.), s(5.), s(5.));
    let c = Matrix::translation(s(10.), s(5.), s(7.));

    let p2 = a * p;
    assert_eq!(p2, point(s(1.), s(-1.), s(0.)));

    let p3 = b * p2;
    assert_eq!(p3, point(s(5.), s(-5.), s(0.)));

    let p4 = c * p3;
    assert_eq!(p4, point(s(15.), s(0.), s(7.)));
}

#[test]
fn test_chained_transformation_multiplication() {
    let p = point(s(1.), s(0.), s(1.));
    let a = Matrix::rotation_x(s(PI / 2.));
    let b = Matrix::scaling(s(5.), s(5.), s(5.));
    let c = Matrix::translation(s(10.), s(5.), s(7.));

    let t = c * b * a;
    assert_eq!(t * p, point(s(15.), s(0.), s(7.)));
}

#[test]
fn matrix_test_chained_transformation_calls() {
    let p = point(s(1.), s(0.), s(1.));
    let t = Matrix::identity4()
        .rotate_x(s(PI / 2.))
        .scale(s(5.), s(5.), s(5.))
        .translate(s(10.), s(5.), s(7.));

    assert_eq!(t * p, point(s(15.), s(0.), s(7.)));
}
