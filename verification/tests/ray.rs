use tracer_kernel::ray::Ray;
use tracer_kernel::scalar::Scalar;
use tracer_kernel::tuple::{point, vector};

fn s(v: f64) -> Scalar {
    Scalar::new((v * 1_000_000_000.0).round() as i64)
}

#[test]
fn test_ray_construction() {
    let ray = Ray::new(point(s(1.), s(2.), s(3.)), vector(s(4.), s(5.), s(6.)));
    assert_eq!(ray.origin, point(s(1.), s(2.), s(3.)));
    assert_eq!(ray.direction, vector(s(4.), s(5.), s(6.)));
}

#[test]
fn test_position() {
    let r = Ray::new(point(s(2.), s(3.), s(4.)), vector(s(1.), s(0.), s(0.)));
    assert_eq!(r.position(s(0.0)), point(s(2.), s(3.), s(4.)));
    assert_eq!(r.position(s(1.0)), point(s(3.), s(3.), s(4.)));
    assert_eq!(r.position(s(-1.0)), point(s(1.), s(3.), s(4.)));
    assert_eq!(r.position(s(2.5)), point(s(4.5), s(3.), s(4.)));
}
