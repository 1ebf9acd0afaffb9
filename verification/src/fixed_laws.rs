//! What holds of the renderer when it computes with [`Fixed`].
//!
//! On fixed-point numbers the products with zero, one and minus one are
//! exact, so that a ray along an axis and a camera turned by half a turn
//! can be followed to the last digit.

use crate::camera::{Camera, Matrix3};
use crate::fixed::{Fixed, PI, SCALE};
use crate::hitable::Hitable;
use crate::jitter::JitterSource;
use crate::material::Material;
use crate::ray::Ray;
use crate::scalar::Scalar;
use crate::scene::Scene;
use crate::sphere::Sphere;
use crate::vec3::Vec3;
use vstd::prelude::*;

verus! {

impl Vec3<Fixed> {
    /// The scalar product with a unit vector along an axis picks the
    /// component on that axis, and with the opposite vector its negation.
    pub proof fn lemma_dot_with_axis(v: Vec3<Fixed>)
        ensures
            ({
                let zero = Fixed { raw: 0 };
                let one = Fixed { raw: SCALE };
                let minus_one = Fixed::saturated(-SCALE);
                &&& Vec3::dot(&Vec3 { x: one, y: zero, z: zero }, &v) == v.x
                &&& Vec3::dot(&Vec3 { x: zero, y: one, z: zero }, &v) == v.y
                &&& Vec3::dot(&Vec3 { x: zero, y: zero, z: one }, &v) == v.z
                &&& Vec3::dot(&Vec3 { x: minus_one, y: zero, z: zero }, &v) == v.x.neg()
                &&& Vec3::dot(&Vec3 { x: zero, y: minus_one, z: zero }, &v) == v.y.neg()
                &&& Vec3::dot(&Vec3 { x: zero, y: zero, z: minus_one }, &v) == v.z.neg()
                &&& Vec3::dot(&v, &Vec3 { x: one, y: zero, z: zero }) == v.x
                &&& Vec3::dot(&v, &Vec3 { x: zero, y: one, z: zero }) == v.y
                &&& Vec3::dot(&v, &Vec3 { x: zero, y: zero, z: one }) == v.z
            }),
    {
        let zero = Fixed { raw: 0 };
        Fixed::lemma_products_with_units(v.x);
        Fixed::lemma_products_with_units(v.y);
        Fixed::lemma_products_with_units(v.z);
        Fixed::lemma_zero_is_neutral(zero);
        Fixed::lemma_zero_is_neutral(v.x);
        Fixed::lemma_zero_is_neutral(v.y);
        Fixed::lemma_zero_is_neutral(v.z);
        Fixed::lemma_zero_is_neutral(v.x.neg());
        Fixed::lemma_zero_is_neutral(v.y.neg());
        Fixed::lemma_zero_is_neutral(v.z.neg());
    }
}

impl Matrix3<Fixed> {
    /// The rotation about the y axis by half a turn negates the first and
    /// the third component of every vector and leaves the second.
    pub proof fn lemma_half_turn_about_y(v: Vec3<Fixed>)
        ensures
            Matrix3::about_y(Fixed { raw: PI as i64 }).times(&Matrix3::identity()) == Matrix3::about_y(
                Fixed { raw: PI as i64 },
            ),
            Matrix3::about_y(Fixed { raw: PI as i64 }).apply(&v) == (Vec3 {
                x: v.x.neg(),
                y: v.y,
                z: v.z.neg(),
            }),
            Matrix3::<Fixed>::identity().apply(&v) == v,
    {
        let turn = Matrix3::about_y(Fixed { raw: PI as i64 });
        Fixed::lemma_zero_and_one();
        Fixed::lemma_half_turn();
        Vec3::lemma_dot_with_axis(v);
        Vec3::lemma_dot_with_axis(turn.top);
        Vec3::lemma_dot_with_axis(turn.middle);
        Vec3::lemma_dot_with_axis(turn.bottom);
    }
}

impl Camera<Fixed> {
    /// A camera that is turned about the y axis by half a turn, from looking
    /// down the negative z axis, looks back: through every point of every
    /// pixel its ray starts where it started before, and the direction of
    /// the ray has its first and third component negated.
    pub proof fn lemma_half_turn_about_y_looks_back(
        before: Camera<Fixed>,
        after: Camera<Fixed>,
        i: usize,
        j: usize,
        rand_x: Fixed,
        rand_y: Fixed,
    )
        requires
            before.rotation_matrix == Matrix3::<Fixed>::identity(),
            after.rotation_matrix == Matrix3::about_y(Fixed { raw: PI as i64 }).times(
                &before.rotation_matrix,
            ),
            after.unchanged_but_orientation(&before),
        ensures
            after.ray_through(i, j, rand_x, rand_y).origin == before.ray_through(
                i,
                j,
                rand_x,
                rand_y,
            ).origin,
            after.ray_through(i, j, rand_x, rand_y).direction == (Vec3 {
                x: before.ray_through(i, j, rand_x, rand_y).direction.x.neg(),
                y: before.ray_through(i, j, rand_x, rand_y).direction.y,
                z: before.ray_through(i, j, rand_x, rand_y).direction.z.neg(),
            }),
    {
        let one = Fixed::from_usize(1);
        let two = Fixed::from_usize(2);
        let zero = Fixed::from_usize(0);
        let norm_i = Fixed::from_usize(i).add(rand_x).div(Fixed::from_usize(before.width));
        let norm_j = Fixed::from_usize(j).add(rand_y).div(Fixed::from_usize(before.height));
        let x = two.mul(norm_i).sub(one).mul(before.image_aspect_ration).mul(before.half_fov_tan);
        let y = one.sub(two.mul(norm_j)).mul(before.half_fov_tan);
        let towards = Vec3 { x, y, z: one.neg() }.sub(Vec3 { x: zero, y: zero, z: zero });
        Matrix3::lemma_half_turn_about_y(towards.normalize());
    }
}

impl Sphere<Fixed> {
    /// A sphere of radius `r` around the origin, looked at from the point
    /// five up the z axis along that axis, is hit at the distance `5 - r`,
    /// at the point `r` up the axis; the ray leaves the sphere at the point
    /// `r` down the axis, which is `5 + r` away; and the normal at the hit
    /// points along the axis away from the centre, with a length of one to
    /// within five millionths.
    ///
    /// This holds of every radius from zero to five whose square has the
    /// radius as its root again in this arithmetic, as every multiple of a
    /// thousandth has.
    pub proof fn lemma_seen_from_five_away(radius: Fixed, material: Material<Fixed>)
        requires
            0 < radius.raw <= 5 * SCALE,
            radius.mul(radius).sqrt() == radius,
        ensures
            ({
                let zero = Fixed::from_usize(0);
                let five = Fixed::from_usize(5);
                let sphere = Sphere { center: Vec3 { x: zero, y: zero, z: zero }, radius, material };
                let ray = Ray {
                    origin: Vec3 { x: zero, y: zero, z: five },
                    direction: Vec3 { x: zero, y: zero, z: Fixed::from_usize(1).neg() },
                };
                &&& sphere.hit(&ray) matches Some(info) && {
                    &&& info.hit_distance == five.sub(radius)
                    &&& info.hit_point == (Vec3 { x: zero, y: zero, z: radius })
                    &&& info.exit_point == (Vec3 { x: zero, y: zero, z: radius.neg() })
                    &&& info.exit_point == ray.origin.add(ray.direction.mul(five.add(radius)))
                    &&& info.normal.x == zero
                    &&& info.normal.y == zero
                    &&& SCALE - 5 <= info.normal.z.raw <= SCALE
                    &&& info.material == material
                }
            }),
    {
        let zero = Fixed { raw: 0 };
        let one = Fixed { raw: SCALE };
        let five = Fixed { raw: 5_000_000 };
        let minus_one = Fixed::saturated(-SCALE);
        let center = Vec3 { x: zero, y: zero, z: zero };
        let sphere = Sphere { center, radius, material };
        let origin = Vec3 { x: zero, y: zero, z: five };
        let direction = Vec3 { x: zero, y: zero, z: minus_one };
        let ray = Ray { origin, direction };
        let square = radius.mul(radius);
        Fixed::lemma_zero_and_one();
        Fixed::lemma_roots_of_units();
        Fixed::lemma_zero_is_neutral(zero);
        Fixed::lemma_zero_is_neutral(square);
        Fixed::lemma_products_with_units(zero);
        Fixed::lemma_products_with_units(five);

        let to_center = center.sub(origin);
        assert(to_center == (Vec3 { x: zero, y: zero, z: five.neg() }));
        Vec3::lemma_dot_with_axis(to_center);
        Fixed::lemma_products_with_units(five.neg());
        assert(sphere.projection(&ray) == five);

        Fixed::lemma_products_with_units(minus_one);
        assert(minus_one.mul(minus_one) == one);
        assert(direction.lenght_squared() == one);
        assert(direction.lenght() == one);
        assert(five.div(one) == five);
        assert(direction.mul(five) == (Vec3 { x: zero, y: zero, z: five.neg() }));
        assert(origin.add(direction.mul(five)) == center);
        assert(center.sub(center) == center);
        assert(center.lenght() == zero);
        assert(sphere.distance_to_ray(&ray) == zero);
        assert(sphere.half_chord(&ray) == radius);

        let near = five.sub(radius);
        let far = five.add(radius);
        Fixed::lemma_products_with_units(near);
        Fixed::lemma_products_with_units(far);
        let hit_point = origin.add(direction.mul(near));
        assert(hit_point == (Vec3 { x: zero, y: zero, z: radius }));
        assert(origin.add(direction.mul(far)) == (Vec3 { x: zero, y: zero, z: radius.neg() }));

        let outward = hit_point.sub(center);
        assert(outward == hit_point);
        assert(outward.lenght() == radius);
        let inverse = one.div(radius);
        assert(inverse.raw == (SCALE * SCALE) / (radius.raw as int));
        assert(SCALE * SCALE - radius.raw < radius.raw * inverse.raw <= SCALE * SCALE) by {
            vstd::arithmetic::div_mod::lemma_fundamental_div_mod(
                SCALE * SCALE,
                radius.raw as int,
            );
        }
        let product = radius.raw * inverse.raw;
        assert(SCALE - 5 <= product / (SCALE as int) <= SCALE);
        assert(outward.normalize().z.raw == product / (SCALE as int));
    }
}

impl<H: Hitable<Fixed>> Scene<Fixed, H> {
    /// With one ray for each pixel, the colour of the background maps to
    /// the bytes 51, 178 and 229.
    pub proof fn lemma_background_bytes(&self)
        requires
            self.rays_per_pixel == 1,
        ensures
            self.spec_get_color(Self::background()) == seq![51u8, 178u8, 229u8],
    {
        let zero = Fixed { raw: 0 };
        let one = Fixed { raw: SCALE };
        let full = Fixed { raw: 255_000_000 };
        let background = Self::background();
        assert(background.x == (Fixed { raw: 200_000 }));
        assert(background.y == (Fixed { raw: 700_000 }));
        assert(background.z == (Fixed { raw: 900_000 }));
        assert(self.sample_count() == one);
        assert(Fixed::from_usize(0) == zero);
        assert(Fixed::from_usize(255) == full);
        assert(background.y.max(background.z) == background.z);
        assert(background.x.max(background.z) == background.z);
        assert(self.rescaled(background) == background);
        assert(self.limited(background.x) == background.x);
        assert(self.limited(background.y) == background.y);
        assert(self.limited(background.z) == background.z);
        assert(self.spec_clamped(background) == background);
        assert(one.div(one) == one);
        Fixed::lemma_products_with_units(Fixed { raw: 51_000_000 });
        Fixed::lemma_products_with_units(Fixed { raw: 178_500_000 });
        Fixed::lemma_products_with_units(Fixed { raw: 229_500_000 });
        assert(background.x.mul(full) == (Fixed { raw: 51_000_000 }));
        assert(background.y.mul(full) == (Fixed { raw: 178_500_000 }));
        assert(background.z.mul(full) == (Fixed { raw: 229_500_000 }));
        assert((Fixed { raw: 51_000_000 }).to_u32() == 51);
        assert((Fixed { raw: 178_500_000 }).to_u32() == 178);
        assert((Fixed { raw: 229_500_000 }).to_u32() == 229);
        assert(self.level(background.x) == 51);
        assert(self.level(background.y) == 178);
        assert(self.level(background.z) == 229);
        assert(self.spec_get_color(background) =~= seq![51u8, 178u8, 229u8]);
    }

    /// In a picture with one ray for each pixel, a pixel whose rays hit
    /// nothing, wherever the source places them, has the colour of the
    /// background: the bytes 51, 178 and 229.
    pub proof fn lemma_sky_pixel<J: JitterSource>(&self, source: &J, i: usize, j: usize, bytes: Seq<u8>)
        requires
            self.rays_per_pixel == 1,
            self.is_pixel(source, i, j, bytes),
            forall|ray: Ray<Fixed>| #[trigger]
                self.camera.is_sample(source, i, j, ray) ==> self.closest_hit(&ray) is None,
        ensures
            bytes == seq![51u8, 178u8, 229u8],
    {
        let rays = choose|rays: Seq<Ray<Fixed>>| #[trigger]
            self.is_sampling(source, i, j, rays) && bytes == self.spec_get_color(
                self.accumulated(rays),
            );
        let zero = Fixed { raw: 0 };
        let background = Self::background();
        assert(self.camera.is_sample(source, i, j, rays[0]));
        assert(rays.last() == rays[0]);
        assert(self.radiance(&rays[0], 0) == background);
        assert(rays.drop_last().len() == 0);
        assert(Fixed::from_usize(0) == zero);
        assert(self.accumulated(rays.drop_last()) == (Vec3 { x: zero, y: zero, z: zero }));
        Fixed::lemma_zero_is_neutral(background.x);
        Fixed::lemma_zero_is_neutral(background.y);
        Fixed::lemma_zero_is_neutral(background.z);
        assert(self.accumulated(rays) == background);
        self.lemma_background_bytes();
    }
}

} // verus!
