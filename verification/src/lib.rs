//! A recursive ray tracer: a camera casts rays through the pixels of an
//! image, the rays are intersected with the objects of a scene, and each hit
//! is shaded from the lights, from a mirror reflection and from a refraction.
//!
//! The renderer is generic over the numbers it computes with (see
//! [`scalar::Scalar`]); [`fixed::Fixed`] is a number type that needs nothing
//! but integers.

pub mod camera;
pub mod fixed;
pub mod fixed_laws;
pub mod hitable;
pub mod image;
pub mod jitter;
pub mod light;
pub mod material;
pub mod ray;
pub mod render;
pub mod scalar;
pub mod scene;
pub mod shading;
pub mod sphere;
pub mod tone;
pub mod vec3;
