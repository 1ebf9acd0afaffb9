//! Rays.

use crate::scalar::Scalar;
use crate::vec3::Vec3;
use vstd::prelude::*;

verus! {

/// A half-line: the points `origin + t * direction` for `t` from zero on.
/// The direction need not have length one.
#[derive(Clone, Copy, Debug, PartialEq)]
pub struct Ray<S> {
    pub origin: Vec3<S>,
    pub direction: Vec3<S>,
}

impl<S: Scalar> Ray<S> {
    /// The ray from `origin` along `direction`.
    pub fn new(origin: Vec3<S>, direction: Vec3<S>) -> (r: Self)
        ensures
            r.origin == origin,
            r.direction == direction,
    {
        Ray { origin, direction }
    }
}

} // verus!
