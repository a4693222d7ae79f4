use tracer_kernel::roughly::RoughlyEqual;
use tracer_kernel::ray::Ray;
use tracer_kernel::scalar::Scalar;
use tracer_kernel::spheres::Sphere;
use tracer_kernel::tuple::{point, vector};

fn s(v: f64) -> Scalar {
    Scalar::new((v * 1_000_000_000.0).round() as i64)
}

fn assert_rough(a: Scalar, b: Scalar) {
    assert!(a.roughly_equal(&b));
}

#[test]
fn test_intersect_sphere() {
    let r = Ray::new(point(s(0.), s(0.), s(-5.)), vector(s(0.), s(0.), s(1.)));
    let sp = Sphere::new();

    let xs = r.intersects(sp.into());
    assert_eq!(xs.len(), 2);
    assert_rough(xs[0].t, s(4.0));
    assert_rough(xs[1].t, s(6.0));
}

#[test]
fn test_intersect_sphere_tangent() {
    let r = Ray::new(point(s(0.), s(1.), s(-5.)), vector(s(0.), s(0.), s(1.)));
    let sp = Sphere::new();

    let xs = r.intersects(sp.into());
    assert_eq!(xs.len(), 2);
    assert_rough(xs[0].t, s(5.0));
    assert_rough(xs[1].t, s(5.0));
}

#[test]
fn test_intersect_sphere_miss() {
    let r = Ray::new(point(s(0.), s(2.), s(-5.)), vector(s(0.), s(0.), s(1.)));
    let sp = Sphere::new();

    let xs = r.intersects(sp.into());
    assert_eq!(xs.len(), 0);
}

#[test]
fn test_intersect_sphere_from_center() {
    let r = Ray::new(point(s(0.), s(0.), s(0.)), vector(s(0.), s(0.), s(1.)));
    let sp = Sphere::new();

    let xs = r.intersects(sp.into());
    assert_eq!(xs.len(), 2);
    assert_rough(xs[0].t, s(-1.0));
    assert_rough(xs[1].t, s(1.0));
}

#[test]
fn test_intersect_sphere_behind_ray() {
    let r = Ray::new(point(s(0.), s(0.), s(5.)), vector(s(0.), s(0.), s(1.)));
    let sp = Sphere::new();

    let xs = r.intersects(sp.into());
    assert_eq!(xs.len(), 2);
    assert_rough(xs[0].t, s(-6.0));
    assert_rough(xs[1].t, s(-4.0));
}
