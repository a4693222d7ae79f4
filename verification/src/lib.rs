//! Affine-geometry kernel for a ray-based renderer.
//!
//! Scalars are exact fixed-point values: an `i64` mantissa denoting the
//! real number `mantissa / SCALE`. Every arithmetic operation states in its
//! contract the exact mantissa it produces, truncation included, so the
//! whole kernel — tuple algebra, the dense matrix engine, the transformation
//! constructors and ray-sphere intersection — is verified end to end.

pub mod intersection;
pub mod ray;
pub mod roughly;
pub mod laws;
pub mod matrix;
pub mod trig;
pub mod tuple;
pub mod scalar;
pub mod shapes;
pub mod spheres;
