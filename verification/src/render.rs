//! The image: every pixel from the rays through its sample points.

use crate::camera::Camera;
use crate::hitable::Hitable;
use crate::jitter::{JitterSource, ThreadJitter};
use crate::ray::Ray;
use crate::scalar::Scalar;
use crate::scene::Scene;
use crate::vec3::Vec3;
use vstd::prelude::*;

verus! {

impl<S: Scalar, H: Hitable<S>> Scene<S, H> {
    /// The sum of the colours that come along `rays`, added in their order.
    pub open spec fn accumulated(&self, rays: Seq<Ray<S>>) -> Vec3<S>
        decreases rays.len(),
    {
        if rays.len() == 0 {
            Vec3 { x: S::from_usize(0), y: S::from_usize(0), z: S::from_usize(0) }
        } else {
            self.accumulated(rays.drop_last()).add(self.radiance(&rays.last(), 0))
        }
    }

    /// Whether `rays` is a sampling of the pixel in column `i` and row `j`
    /// that `source` can place: as many rays as the scene casts per pixel,
    /// each through a sample point of that pixel.
    pub open spec fn is_sampling<J: JitterSource>(
        &self,
        source: &J,
        i: usize,
        j: usize,
        rays: Seq<Ray<S>>,
    ) -> bool {
        &&& rays.len() == self.rays_per_pixel
        &&& forall|k: int|
            0 <= k < rays.len() ==> self.camera.is_sample(source, i, j, #[trigger] rays[k])
    }

    /// Whether `bytes` is a rendering of the pixel in column `i` and row `j`
    /// with sample points from `source`: the bytes of what some sampling of
    /// the pixel brings.
    pub open spec fn is_pixel<J: JitterSource>(
        &self,
        source: &J,
        i: usize,
        j: usize,
        bytes: Seq<u8>,
    ) -> bool {
        exists|rays: Seq<Ray<S>>| #[trigger]
            self.is_sampling(source, i, j, rays) && bytes == self.spec_get_color(
                self.accumulated(rays),
            )
    }

    /// Where the three bytes of the pixel in column `i` and row `j` start in
    /// an image that is `width` pixels wide.
    pub open spec fn pixel_offset(width: int, i: int, j: int) -> int {
        3 * (j * width + i)
    }

    /// Whether `data` holds the rows from 0 up to `rows`, and of the next row
    /// the pixels from 0 up to `columns`, each a rendering of its pixel with
    /// sample points from `source`.
    pub open spec fn is_image_part<J: JitterSource>(
        &self,
        source: &J,
        data: Seq<u8>,
        rows: int,
        columns: int,
    ) -> bool {
        let width = self.camera.width as int;
        &&& data.len() == Self::pixel_offset(width, columns, rows)
        &&& forall|i: usize, j: usize|
            0 <= i < width && (j < rows || (j == rows && i < columns)) ==> #[trigger] self.is_pixel(
                source,
                i,
                j,
                data.subrange(
                    Self::pixel_offset(width, i as int, j as int),
                    Self::pixel_offset(width, i as int, j as int) + 3,
                ),
            )
    }

    /// The bytes of the pixel in column `i` and row `j` when every ray goes
    /// through the point of the pixel that `bits` place.
    pub open spec fn steady_pixel(&self, i: usize, j: usize, bits: u32) -> Seq<u8> {
        let ray = self.camera.ray_through(i, j, Camera::<S>::jitter(bits), Camera::<S>::jitter(bits));
        self.spec_get_color(self.accumulated(Seq::new(self.rays_per_pixel as nat, |k: int| ray)))
    }

    /// Renders the pixel in column `i` and row `j`: casts the rays of a
    /// sampling of the pixel, with sample points from `source`, and maps the
    /// sum of their colours to bytes.
    pub fn render_pixel_with<J: JitterSource>(&self, i: usize, j: usize, source: &mut J) -> (r: [u8; 3])
        ensures
            self.is_pixel(old(source), i, j, r@),
            crate::jitter::narrows(final(source), old(source)),
    {
        let zero = S::from_usize(0);
        let mut color = Vec3::new(zero, zero, zero);
        let ghost mut rays: Seq<Ray<S>> = Seq::empty();
        let mut k: usize = 0;
        while k < self.rays_per_pixel
            invariant
                k <= self.rays_per_pixel,
                rays.len() == k,
                forall|t: int|
                    0 <= t < rays.len() ==> self.camera.is_sample(old(source), i, j, #[trigger] rays[t]),
                color == self.accumulated(rays),
                crate::jitter::narrows(source, old(source)),
            decreases self.rays_per_pixel - k,
        {
            let ghost before = *source;
            let ray = self.camera.sample_ray(i, j, source);
            color = color.add(self.cast_ray(&ray, 0));
            proof {
                self.camera.lemma_sample_of_wider(&before, old(source), i, j, ray);
                assert(rays.push(ray).drop_last() == rays);
                rays = rays.push(ray);
            }
            k += 1;
        }
        proof {
            assert(self.is_sampling(old(source), i, j, rays));
        }
        self.get_color(color)
    }

    /// Renders the pixel in column `i` and row `j` with random sample points.
    pub fn render_pixel(&self, i: usize, j: usize) -> (r: [u8; 3])
        ensures
            self.is_pixel(&ThreadJitter, i, j, r@),
    {
        let mut source = ThreadJitter;
        self.render_pixel_with(i, j, &mut source)
    }

    /// Renders the image with sample points from `source`: three bytes for
    /// each pixel, red, green and blue, the rows from top to bottom and each
    /// row from left to right.
    pub fn render_with<J: JitterSource>(&self, source: &mut J) -> (data: Vec<u8>)
        ensures
            data@.len() == 3 * (self.camera.height * self.camera.width),
            self.is_image_part(old(source), data@, self.camera.height as int, 0),
            crate::jitter::narrows(final(source), old(source)),
    {
        let mut data: Vec<u8> = Vec::new();
        let mut j: usize = 0;
        while j < self.camera.height
            invariant
                j <= self.camera.height,
                self.is_image_part(old(source), data@, j as int, 0),
                crate::jitter::narrows(source, old(source)),
            decreases self.camera.height - j,
        {
            let mut i: usize = 0;
            while i < self.camera.width
                invariant
                    i <= self.camera.width,
                    j < self.camera.height,
                    self.is_image_part(old(source), data@, j as int, i as int),
                    crate::jitter::narrows(source, old(source)),
                decreases self.camera.width - i,
            {
                let ghost before = data@;
                let ghost earlier = *source;
                let c = self.render_pixel_with(i, j, source);
                data.push(c[0]);
                data.push(c[1]);
                data.push(c[2]);
                proof {
                    assert(data@ =~= before + c@);
                    self.lemma_pixel_of_wider(&earlier, old(source), i, j, c@);
                    self.lemma_image_grows(old(source), before, data@, c@, i, j);
                }
                i += 1;
            }
            proof {
                let width = self.camera.width as int;
                Self::lemma_rows_adjoin(width, j as int);
            }
            j += 1;
        }
        data
    }

    /// Renders the image with random sample points: three bytes for each
    /// pixel, red, green and blue, the rows from top to bottom and each row
    /// from left to right.
    pub fn render(&self) -> (data: Vec<u8>)
        ensures
            data@.len() == 3 * (self.camera.height * self.camera.width),
            self.is_image_part(&ThreadJitter, data@, self.camera.height as int, 0),
    {
        let mut source = ThreadJitter;
        self.render_with(&mut source)
    }

    /// In an image, a pixel ends where a later one starts, or before.
    pub proof fn lemma_pixels_in_order(width: int, a: int, b: int, i: int, j: int)
        by (nonlinear_arith)
        requires
            0 <= a < width,
            0 <= i <= width,
            0 <= b,
            b < j || (b == j && a < i),
        ensures
            0 <= Self::pixel_offset(width, a, b),
            Self::pixel_offset(width, a, b) + 3 <= Self::pixel_offset(width, i, j),
    {
    }

    /// In an image, a row ends where the next one starts.
    pub proof fn lemma_rows_adjoin(width: int, j: int)
        by (nonlinear_arith)
        ensures
            Self::pixel_offset(width, width, j) == Self::pixel_offset(width, 0, j + 1),
    {
    }

    /// A rendering of a pixel with sample points from a source is one with
    /// sample points from every source that may give as much.
    pub proof fn lemma_pixel_of_wider<J: JitterSource>(
        &self,
        later: &J,
        earlier: &J,
        i: usize,
        j: usize,
        bytes: Seq<u8>,
    )
        requires
            crate::jitter::narrows(later, earlier),
            self.is_pixel(later, i, j, bytes),
        ensures
            self.is_pixel(earlier, i, j, bytes),
    {
        let rays = choose|rays: Seq<Ray<S>>| #[trigger]
            self.is_sampling(later, i, j, rays) && bytes == self.spec_get_color(
                self.accumulated(rays),
            );
        assert forall|k: int| 0 <= k < rays.len() implies self.camera.is_sample(
            earlier,
            i,
            j,
            #[trigger] rays[k],
        ) by {
            self.camera.lemma_sample_of_wider(later, earlier, i, j, rays[k]);
        }
        assert(self.is_sampling(earlier, i, j, rays));
    }

    /// An image part with one more pixel behind it is the next image part.
    proof fn lemma_image_grows<J: JitterSource>(
        &self,
        source: &J,
        before: Seq<u8>,
        after: Seq<u8>,
        pixel: Seq<u8>,
        i: usize,
        j: usize,
    )
        requires
            i < self.camera.width,
            self.is_image_part(source, before, j as int, i as int),
            pixel.len() == 3,
            after =~= before + pixel,
            self.is_pixel(source, i, j, pixel),
        ensures
            self.is_image_part(source, after, j as int, i + 1),
    {
        let width = self.camera.width as int;
        Self::lemma_pixels_in_order(width, i as int, j as int, i + 1, j as int);
        assert forall|a: usize, b: usize|
            0 <= a < width && (b < j || (b == j && a < i + 1)) implies #[trigger] self.is_pixel(
            source,
            a,
            b,
            after.subrange(
                Self::pixel_offset(width, a as int, b as int),
                Self::pixel_offset(width, a as int, b as int) + 3,
            ),
        ) by {
            let start = Self::pixel_offset(width, a as int, b as int);
            if b == j && a == i {
                assert(after.subrange(start, start + 3) =~= pixel);
            } else {
                Self::lemma_pixels_in_order(width, a as int, b as int, i as int, j as int);
                assert(self.is_pixel(source, a, b, before.subrange(start, start + 3)));
                assert(after.subrange(start, start + 3) =~= before.subrange(start, start + 3));
            }
        }
    }

    /// With a source that gives the same bits at every draw, a pixel has
    /// one rendering only: that of its rays all going through the one point
    /// that the bits place.
    pub proof fn lemma_steady_pixel(
        &self,
        source: &crate::jitter::SteadyJitter,
        i: usize,
        j: usize,
        bytes: Seq<u8>,
    )
        requires
            self.is_pixel(source, i, j, bytes),
        ensures
            bytes == self.steady_pixel(i, j, source.bits),
    {
        let rays = choose|rays: Seq<Ray<S>>| #[trigger]
            self.is_sampling(source, i, j, rays) && bytes == self.spec_get_color(
                self.accumulated(rays),
            );
        let ray = self.camera.ray_through(
            i,
            j,
            Camera::<S>::jitter(source.bits),
            Camera::<S>::jitter(source.bits),
        );
        assert forall|k: int| 0 <= k < rays.len() implies rays[k] == ray by {
            assert(self.camera.is_sample(source, i, j, rays[k]));
        }
        assert(rays =~= Seq::new(self.rays_per_pixel as nat, |k: int| ray));
    }

    /// With a source that gives the same bits at every draw, an image has
    /// one rendering only: every pixel is that of its rays all going through
    /// the one point that the bits place.
    pub proof fn lemma_steady_image(&self, source: &crate::jitter::SteadyJitter, data: Seq<u8>)
        requires
            self.is_image_part(source, data, self.camera.height as int, 0),
        ensures
            forall|i: usize, j: usize|
                i < self.camera.width && j < self.camera.height ==> data.subrange(
                    Self::pixel_offset(self.camera.width as int, i as int, j as int),
                    Self::pixel_offset(self.camera.width as int, i as int, j as int) + 3,
                ) == #[trigger] self.steady_pixel(i, j, source.bits),
    {
        let width = self.camera.width as int;
        assert forall|i: usize, j: usize|
            i < self.camera.width && j < self.camera.height implies data.subrange(
            Self::pixel_offset(width, i as int, j as int),
            Self::pixel_offset(width, i as int, j as int) + 3,
        ) == #[trigger] self.steady_pixel(i, j, source.bits) by {
            let start = Self::pixel_offset(width, i as int, j as int);
            assert(self.is_pixel(source, i, j, data.subrange(start, start + 3)));
            self.lemma_steady_pixel(source, i, j, data.subrange(start, start + 3));
        }
    }
}

} // verus!
