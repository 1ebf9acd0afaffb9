//! The scene: objects, lights and a camera.
//!
//! What a ray brings from a scene is in [`crate::shading`], how the sum of
//! what the rays of a pixel bring becomes bytes in [`crate::tone`], and how
//! the image is put together in [`crate::render`].

use crate::camera::Camera;
use crate::hitable::Hitable;
use crate::image::{encode_png, ImageError};
use crate::light::Light;
use crate::scalar::Scalar;
use vstd::prelude::*;

verus! {

/// Objects, lights and the camera that looks at them.
pub struct Scene<S, H> {
    /// How many rays are cast through each pixel.
    pub rays_per_pixel: usize,
    /// How many times a ray may be mirrored or refracted.
    pub max_recurtion: usize,
    pub objects: Vec<H>,
    pub lights: Vec<Light<S>>,
    pub camera: Camera<S>,
}

impl<S: Scalar, H: Hitable<S>> Scene<S, H> {
    /// A scene without objects and lights.
    pub fn new(rays_per_pixel: usize, max_recurtion: usize, camera: Camera<S>) -> (r: Self)
        ensures
            r.rays_per_pixel == rays_per_pixel,
            r.max_recurtion == max_recurtion,
            r.camera == camera,
            r.objects@.len() == 0,
            r.lights@.len() == 0,
    {
        Scene { rays_per_pixel, max_recurtion, objects: Vec::new(), lights: Vec::new(), camera }
    }

    /// Adds an object behind those that the scene holds.
    pub fn push_object(&mut self, object: H)
        ensures
            final(self).objects@ == old(self).objects@.push(object),
            final(self).lights == old(self).lights,
            final(self).camera == old(self).camera,
            final(self).rays_per_pixel == old(self).rays_per_pixel,
            final(self).max_recurtion == old(self).max_recurtion,
    {
        self.objects.push(object)
    }

    /// Adds a light behind those that the scene holds.
    pub fn push_light(&mut self, light: Light<S>)
        ensures
            final(self).lights@ == old(self).lights@.push(light),
            final(self).objects == old(self).objects,
            final(self).camera == old(self).camera,
            final(self).rays_per_pixel == old(self).rays_per_pixel,
            final(self).max_recurtion == old(self).max_recurtion,
    {
        self.lights.push(light)
    }

    /// The bytes of the PNG file of a rendered image: `data` holds three
    /// bytes for each pixel of the camera's image, as `render` returns them.
    /// An image without pixels, one with a side beyond 32 bits and data of
    /// another length are refused.
    pub fn save_as_png(&self, data: &Vec<u8>) -> (r: Result<Vec<u8>, ImageError>)
        ensures
            match r {
                Ok(file) => crate::image::refusal(self.camera.width, self.camera.height, data@.len())
                    is None && crate::image::png_file(
                    self.camera.width as u32,
                    self.camera.height as u32,
                    data@,
                ) == Some(file@),
                Err(e) => match crate::image::refusal(
                    self.camera.width,
                    self.camera.height,
                    data@.len(),
                ) {
                    Some(reason) => e == reason,
                    None => e == ImageError::Encoder && crate::image::png_file(
                        self.camera.width as u32,
                        self.camera.height as u32,
                        data@,
                    ) is None,
                },
            },
    {
        encode_png(self.camera.width, self.camera.height, data)
    }
}

} // verus!
