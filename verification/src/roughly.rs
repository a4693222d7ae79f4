//! Tolerance-based equality.
//!
//! Two scalars are roughly equal when they differ by less than 1e-5 of a
//! unit. This comparison is the foundation of all structural equality in the
//! kernel: tuples and matrices compare component-wise through it.

use crate::scalar::{sabs, EPSILON_M, Scalar};
use vstd::prelude::*;

verus! {

/// Equality up to the kernel's fixed tolerance.
pub trait RoughlyEqual {
    /// What `roughly_equal` decides, as a specification.
    spec fn roughly_spec(&self, other: &Self) -> bool;

    /// Whether `self` and `other` are equal within tolerance.
    fn roughly_equal(&self, other: &Self) -> (r: bool)
        ensures
            r == self.roughly_spec(other),
    ;
}

impl RoughlyEqual for Scalar {
    /// Mantissas differ by less than `EPSILON_M`.
    open spec fn roughly_spec(&self, other: &Self) -> bool {
        sabs(self@ - other@) < EPSILON_M
    }

    fn roughly_equal(&self, other: &Self) -> (r: bool) {
        let d: i128 = self.mantissa() as i128 - other.mantissa() as i128;
        let a: i128 = if d < 0 {
            -d
        } else {
            d
        };
        a < EPSILON_M as i128
    }
}

} // verus!
