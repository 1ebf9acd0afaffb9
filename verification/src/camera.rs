//! The camera: from a pixel of the image to a ray into the scene.

use crate::jitter::{JitterSource, ThreadJitter};
use crate::ray::Ray;
use crate::scalar::Scalar;
use crate::vec3::Vec3;
use vstd::prelude::*;

verus! {

/// A matrix of three rows.
#[derive(Clone, Copy, Debug, PartialEq)]
pub struct Matrix3<S> {
    pub top: Vec3<S>,
    pub middle: Vec3<S>,
    pub bottom: Vec3<S>,
}

impl<S: Scalar> Matrix3<S> {
    /// The matrix that leaves every vector as it is.
    pub open spec fn identity() -> Self {
        let zero = S::from_usize(0);
        let one = S::from_usize(1);
        Matrix3 {
            top: Vec3 { x: one, y: zero, z: zero },
            middle: Vec3 { x: zero, y: one, z: zero },
            bottom: Vec3 { x: zero, y: zero, z: one },
        }
    }

    /// The elementary rotation about the x axis by `angle`.
    pub open spec fn about_x(angle: S) -> Self {
        let zero = S::from_usize(0);
        let one = S::from_usize(1);
        Matrix3 {
            top: Vec3 { x: one, y: zero, z: zero },
            middle: Vec3 { x: zero, y: angle.cos(), z: angle.sin() },
            bottom: Vec3 { x: zero, y: angle.sin().neg(), z: angle.cos() },
        }
    }

    /// The elementary rotation about the y axis by `angle`.
    pub open spec fn about_y(angle: S) -> Self {
        let zero = S::from_usize(0);
        let one = S::from_usize(1);
        Matrix3 {
            top: Vec3 { x: angle.cos(), y: zero, z: angle.sin().neg() },
            middle: Vec3 { x: zero, y: one, z: zero },
            bottom: Vec3 { x: angle.sin(), y: zero, z: angle.cos() },
        }
    }

    /// The elementary rotation about the z axis by `angle`.
    pub open spec fn about_z(angle: S) -> Self {
        let zero = S::from_usize(0);
        let one = S::from_usize(1);
        Matrix3 {
            top: Vec3 { x: angle.cos(), y: angle.sin().neg(), z: zero },
            middle: Vec3 { x: angle.sin(), y: angle.cos(), z: zero },
            bottom: Vec3 { x: zero, y: zero, z: one },
        }
    }

    /// The first column.
    pub open spec fn left(&self) -> Vec3<S> {
        Vec3 { x: self.top.x, y: self.middle.x, z: self.bottom.x }
    }

    /// The second column.
    pub open spec fn center(&self) -> Vec3<S> {
        Vec3 { x: self.top.y, y: self.middle.y, z: self.bottom.y }
    }

    /// The third column.
    pub open spec fn right(&self) -> Vec3<S> {
        Vec3 { x: self.top.z, y: self.middle.z, z: self.bottom.z }
    }

    /// A row of `self` times every column of `other`.
    pub open spec fn row_times(row: &Vec3<S>, other: &Self) -> Vec3<S> {
        Vec3 {
            x: Vec3::dot(row, &other.left()),
            y: Vec3::dot(row, &other.center()),
            z: Vec3::dot(row, &other.right()),
        }
    }

    /// The matrix product `self · other`.
    pub open spec fn spec_times(&self, other: &Self) -> Self {
        Matrix3 {
            top: Self::row_times(&self.top, other),
            middle: Self::row_times(&self.middle, other),
            bottom: Self::row_times(&self.bottom, other),
        }
    }

    /// The matrix applied to a vector: every row times the vector.
    pub open spec fn spec_apply(&self, v: &Vec3<S>) -> Vec3<S> {
        Vec3 {
            x: Vec3::dot(&self.top, v),
            y: Vec3::dot(&self.middle, v),
            z: Vec3::dot(&self.bottom, v),
        }
    }

    /// The matrix product `self · other`.
    #[verifier::when_used_as_spec(spec_times)]
    pub fn times(&self, other: &Self) -> (r: Self)
        ensures
            r == self.spec_times(other),
    {
        let b1 = Vec3 { x: other.top.x, y: other.middle.x, z: other.bottom.x };
        let b2 = Vec3 { x: other.top.y, y: other.middle.y, z: other.bottom.y };
        let b3 = Vec3 { x: other.top.z, y: other.middle.z, z: other.bottom.z };
        Matrix3 {
            top: Vec3 {
                x: Vec3::dot(&self.top, &b1),
                y: Vec3::dot(&self.top, &b2),
                z: Vec3::dot(&self.top, &b3),
            },
            middle: Vec3 {
                x: Vec3::dot(&self.middle, &b1),
                y: Vec3::dot(&self.middle, &b2),
                z: Vec3::dot(&self.middle, &b3),
            },
            bottom: Vec3 {
                x: Vec3::dot(&self.bottom, &b1),
                y: Vec3::dot(&self.bottom, &b2),
                z: Vec3::dot(&self.bottom, &b3),
            },
        }
    }

    /// The matrix applied to a vector: every row times the vector.
    #[verifier::when_used_as_spec(spec_apply)]
    pub fn apply(&self, v: &Vec3<S>) -> (r: Vec3<S>)
        ensures
            r == self.spec_apply(v),
    {
        Vec3 {
            x: Vec3::dot(&self.top, v),
            y: Vec3::dot(&self.middle, v),
            z: Vec3::dot(&self.bottom, v),
        }
    }
}

/// A pinhole camera that looks down the negative z axis until it is rotated.
pub struct Camera<S> {
    pub position: Vec3<S>,
    pub width: usize,
    pub height: usize,
    pub fov: S,
    /// The width of the image over its height.
    pub image_aspect_ration: S,
    /// The tangent of half the field of view.
    pub half_fov_tan: S,
    /// The orientation: the matrix that turns a direction of the camera into
    /// a direction of the world.
    pub rotation_matrix: Matrix3<S>,
}

impl<S: Scalar> Camera<S> {
    /// The derived values agree with the size of the image and the field of view.
    pub open spec fn well_formed(&self) -> bool {
        &&& self.image_aspect_ration == S::from_usize(self.width).div(S::from_usize(self.height))
        &&& self.half_fov_tan == self.fov.div(S::from_usize(2)).tan()
    }

    /// A sample offset inside a pixel, from zero up to but not including one:
    /// the upper 24 of 32 random bits, over 2^24.
    pub open spec fn jitter(bits: u32) -> S {
        S::fraction(bits >> 8, 0x100_0000)
    }

    /// The ray from the camera through the point of the image plane that lies
    /// `rand_x` to the right of and `rand_y` below the upper left corner of
    /// the pixel in column `i` and row `j`.
    ///
    /// The point is taken to the square from -1 to 1, stretched by the aspect
    /// ratio and the tangent of half the field of view, and set at depth -1.
    /// The direction to it is normalized and then turned by the orientation.
    pub open spec fn spec_ray_through(&self, i: usize, j: usize, rand_x: S, rand_y: S) -> Ray<S> {
        let one = S::from_usize(1);
        let two = S::from_usize(2);
        let norm_i = S::from_usize(i).add(rand_x).div(S::from_usize(self.width));
        let norm_j = S::from_usize(j).add(rand_y).div(S::from_usize(self.height));
        let x = two.mul(norm_i).sub(one).mul(self.image_aspect_ration).mul(self.half_fov_tan);
        let y = one.sub(two.mul(norm_j)).mul(self.half_fov_tan);
        let zero = S::from_usize(0);
        let towards = Vec3 { x, y, z: one.neg() }.sub(Vec3 { x: zero, y: zero, z: zero });
        Ray { origin: self.position, direction: self.rotation_matrix.apply(&towards.normalize()) }
    }

    /// A camera at `position` for an image of `width` by `height` pixels,
    /// with the field of view `fov` in radians, not rotated.
    pub fn new(position: Vec3<S>, width: usize, height: usize, fov: S) -> (r: Self)
        ensures
            r.position == position,
            r.width == width,
            r.height == height,
            r.fov == fov,
            r.rotation_matrix == Matrix3::<S>::identity(),
            r.well_formed(),
    {
        let image_aspect_ration = S::from_usize(width).div(S::from_usize(height));
        let half_fov_tan = fov.div(S::from_usize(2)).tan();
        let zero = S::from_usize(0);
        let one = S::from_usize(1);
        Camera {
            position,
            width,
            height,
            fov,
            image_aspect_ration,
            half_fov_tan,
            rotation_matrix: Matrix3 {
                top: Vec3 { x: one, y: zero, z: zero },
                middle: Vec3 { x: zero, y: one, z: zero },
                bottom: Vec3 { x: zero, y: zero, z: one },
            },
        }
    }

    /// Turns the camera about the x axis: the rotation is put in front of
    /// the orientation so far.
    pub fn set_rotation_x(&mut self, angle: S)
        ensures
            final(self).rotation_matrix == Matrix3::about_x(angle).times(&old(self).rotation_matrix),
            final(self).unchanged_but_orientation(old(self)),
            old(self).well_formed() ==> final(self).well_formed(),
    {
        let zero = S::from_usize(0);
        let one = S::from_usize(1);
        let c = angle.cos();
        let s = angle.sin();
        self.rotation_matrix = Self::multiply_matrices(
            Matrix3 {
                top: Vec3 { x: one, y: zero, z: zero },
                middle: Vec3 { x: zero, y: c, z: s },
                bottom: Vec3 { x: zero, y: s.neg(), z: c },
            },
            self.rotation_matrix,
        );
    }

    /// Turns the camera about the y axis: the rotation is put in front of
    /// the orientation so far.
    pub fn set_rotation_y(&mut self, angle: S)
        ensures
            final(self).rotation_matrix == Matrix3::about_y(angle).times(&old(self).rotation_matrix),
            final(self).unchanged_but_orientation(old(self)),
            old(self).well_formed() ==> final(self).well_formed(),
    {
        let zero = S::from_usize(0);
        let one = S::from_usize(1);
        let c = angle.cos();
        let s = angle.sin();
        self.rotation_matrix = Self::multiply_matrices(
            Matrix3 {
                top: Vec3 { x: c, y: zero, z: s.neg() },
                middle: Vec3 { x: zero, y: one, z: zero },
                bottom: Vec3 { x: s, y: zero, z: c },
            },
            self.rotation_matrix,
        );
    }

    /// Turns the camera about the z axis: the rotation is put in front of
    /// the orientation so far.
    pub fn set_rotation_z(&mut self, angle: S)
        ensures
            final(self).rotation_matrix == Matrix3::about_z(angle).times(&old(self).rotation_matrix),
            final(self).unchanged_but_orientation(old(self)),
            old(self).well_formed() ==> final(self).well_formed(),
    {
        let zero = S::from_usize(0);
        let one = S::from_usize(1);
        let c = angle.cos();
        let s = angle.sin();
        self.rotation_matrix = Self::multiply_matrices(
            Matrix3 {
                top: Vec3 { x: c, y: s.neg(), z: zero },
                middle: Vec3 { x: s, y: c, z: zero },
                bottom: Vec3 { x: zero, y: zero, z: one },
            },
            self.rotation_matrix,
        );
    }

    /// Whether `self` and `before` agree in everything but the orientation.
    pub open spec fn unchanged_but_orientation(&self, before: &Self) -> bool {
        &&& self.position == before.position
        &&& self.width == before.width
        &&& self.height == before.height
        &&& self.fov == before.fov
        &&& self.image_aspect_ration == before.image_aspect_ration
        &&& self.half_fov_tan == before.half_fov_tan
    }

    /// Whether `ray` goes through a sample point of the pixel in column `i`
    /// and row `j` that `source` can place: whether some bits that the
    /// source may give lead to it.
    pub open spec fn is_sample<J: JitterSource>(
        &self,
        source: &J,
        i: usize,
        j: usize,
        ray: Ray<S>,
    ) -> bool {
        exists|bits_x: u32, bits_y: u32|
            #![trigger Self::jitter(bits_x), Self::jitter(bits_y)]
            source.may_give(bits_x) && source.may_give(bits_y) && ray == self.ray_through(
                i,
                j,
                Self::jitter(bits_x),
                Self::jitter(bits_y),
            )
    }

    /// A sample of a source is a sample of every source that may give as much.
    pub proof fn lemma_sample_of_wider<J: JitterSource>(
        &self,
        later: &J,
        earlier: &J,
        i: usize,
        j: usize,
        ray: Ray<S>,
    )
        requires
            crate::jitter::narrows(later, earlier),
            self.is_sample(later, i, j, ray),
        ensures
            self.is_sample(earlier, i, j, ray),
    {
        let (bits_x, bits_y) = choose|bits_x: u32, bits_y: u32|
            #![trigger Self::jitter(bits_x), Self::jitter(bits_y)]
            later.may_give(bits_x) && later.may_give(bits_y) && ray == self.ray_through(
                i,
                j,
                Self::jitter(bits_x),
                Self::jitter(bits_y),
            );
        assert(earlier.may_give(bits_x) && earlier.may_give(bits_y));
        assert(ray == self.ray_through(i, j, Self::jitter(bits_x), Self::jitter(bits_y)));
    }

    /// The ray through the point of the pixel in column `i` and row `j` that
    /// the next two draws from `source` place: the first draw gives the
    /// offset to the right, the second the offset downwards.
    pub fn sample_ray<J: JitterSource>(&self, i: usize, j: usize, source: &mut J) -> (r: Ray<S>)
        ensures
            self.is_sample(old(source), i, j, r),
            r.origin == self.position,
            crate::jitter::narrows(final(source), old(source)),
    {
        let bits_x = source.next_bits();
        let bits_y = source.next_bits();
        let rand_x = S::fraction(bits_x >> 8, 0x100_0000);
        let rand_y = S::fraction(bits_y >> 8, 0x100_0000);
        let r = self.ray_through(i, j, rand_x, rand_y);
        assert(r == self.ray_through(i, j, Self::jitter(bits_x), Self::jitter(bits_y)));
        r
    }

    /// The ray through a random point of the pixel in column `i` and row `j`.
    pub fn compute_camera(&self, i: usize, j: usize) -> (r: Ray<S>)
        ensures
            self.is_sample(&ThreadJitter, i, j, r),
            r.origin == self.position,
    {
        let mut source = ThreadJitter;
        self.sample_ray(i, j, &mut source)
    }

    /// The ray through the point of the pixel in column `i` and row `j` that
    /// the offsets `rand_x` and `rand_y` mark.
    #[verifier::when_used_as_spec(spec_ray_through)]
    pub fn ray_through(&self, i: usize, j: usize, rand_x: S, rand_y: S) -> (r: Ray<S>)
        ensures
            r == self.spec_ray_through(i, j, rand_x, rand_y),
            r.origin == self.position,
    {
        let zero = S::from_usize(0);
        let one = S::from_usize(1);
        let two = S::from_usize(2);
        let norm_i = S::from_usize(i).add(rand_x).div(S::from_usize(self.width));
        let norm_j = S::from_usize(j).add(rand_y).div(S::from_usize(self.height));
        let pixel_camera_x = two.mul(norm_i).sub(one).mul(self.image_aspect_ration).mul(
            self.half_fov_tan,
        );
        let pixel_camera_y = one.sub(two.mul(norm_j)).mul(self.half_fov_tan);
        let ray_p_world = Vec3::new(pixel_camera_x, pixel_camera_y, one.neg());
        let ray_direction = ray_p_world.sub(Vec3::new(zero, zero, zero)).normalize();
        Ray::new(self.position, self.camera_to_world(&ray_direction))
    }

    fn camera_to_world(&self, other: &Vec3<S>) -> (r: Vec3<S>)
        ensures
            r == self.rotation_matrix.apply(other),
    {
        self.rotation_matrix.apply(other)
    }

    fn multiply_matrices(a: Matrix3<S>, b: Matrix3<S>) -> (r: Matrix3<S>)
        ensures
            r == a.times(&b),
    {
        a.times(&b)
    }
}

} // verus!
