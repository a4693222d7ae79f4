use tracer_kernel::roughly::RoughlyEqual;
use tracer_kernel::scalar::Scalar;

fn s(v: f64) -> Scalar {
    Scalar::new((v * 1_000_000_000.0).round() as i64)
}

#[test]
fn test_f64_roughly_equal() {
    assert!(s(1.000005).roughly_equal(&s(1.000000)))
}

#[test]
fn test_f64_not_roughly_equal() {
    assert!(!s(1.000005).roughly_equal(&s(1.005000)))
}
