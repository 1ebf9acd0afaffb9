//! Surface materials.

use crate::scalar::Scalar;
use crate::vec3::Vec3;
use vstd::prelude::*;

verus! {

/// How a surface answers to light. The four weights (`color_albedo`,
/// `specular_albedo`, `reflexion_factor`, `transparency_factor`) are
/// independent of each other and need not add up to one.
#[derive(Clone, Copy, Debug, PartialEq)]
pub struct Material<S> {
    /// The colour of the diffuse part.
    pub color: Vec3<S>,
    /// The weight of the diffuse part.
    pub color_albedo: S,
    /// The exponent of the highlight: the larger, the smaller the highlight.
    pub specular_exponent: S,
    /// The weight of the highlight.
    pub specular_albedo: S,
    /// The weight of what the surface mirrors.
    pub reflexion_factor: S,
    /// The index of refraction of the medium behind the surface.
    pub refraction_index: S,
    /// The weight of what shines through the surface.
    pub transparency_factor: S,
}

impl<S: Scalar> Material<S> {
    /// A material of the given colour and weights.
    pub fn new(
        color: Vec3<S>,
        color_albedo: S,
        specular_exponent: S,
        specular_albedo: S,
        reflexion_factor: S,
        refraction_index: S,
        transparency_factor: S,
    ) -> (r: Self)
        ensures
            r.color == color,
            r.color_albedo == color_albedo,
            r.specular_exponent == specular_exponent,
            r.specular_albedo == specular_albedo,
            r.reflexion_factor == reflexion_factor,
            r.refraction_index == refraction_index,
            r.transparency_factor == transparency_factor,
    {
        Material {
            color,
            color_albedo,
            specular_exponent,
            specular_albedo,
            reflexion_factor,
            refraction_index,
            transparency_factor,
        }
    }
}

} // verus!
