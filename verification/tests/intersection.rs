use tracer_kernel::intersection::Intersection;
use tracer_kernel::scalar::Scalar;
use tracer_kernel::shapes::Shape;
use tracer_kernel::spheres::Sphere;

fn s(v: f64) -> Scalar {
    Scalar::new((v * 1_000_000_000.0).round() as i64)
}

#[test]
fn test_encapsulation() {
    let sp = Sphere::new();
    let i = Intersection::new(s(3.5), sp.into());
    assert_eq!(i.t, s(3.5));
    assert_eq!(i.object, Shape::Sphere(sp));
}
