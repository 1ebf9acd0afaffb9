//! Point lights.

use crate::scalar::Scalar;
use crate::vec3::Vec3;
use vstd::prelude::*;

verus! {

/// A point light. Its intensity does not fall off with distance.
#[derive(Clone, Copy, Debug, PartialEq)]
pub struct Light<S> {
    pub position: Vec3<S>,
    pub intensity: S,
}

impl<S: Scalar> Light<S> {
    /// A light of the given intensity at `position`.
    pub fn new(position: Vec3<S>, intensity: S) -> (r: Self)
        ensures
            r.position == position,
            r.intensity == intensity,
    {
        Light { position, intensity }
    }
}

} // verus!
