//! Spheres.

use crate::hitable::{HitInfos, Hitable};
use crate::material::Material;
use crate::ray::Ray;
use crate::scalar::{OrderedScalar, Scalar};
use crate::vec3::Vec3;
use vstd::prelude::*;

verus! {

/// A sphere of one material.
#[derive(Clone, Copy, Debug, PartialEq)]
pub struct Sphere<S> {
    pub center: Vec3<S>,
    pub radius: S,
    pub material: Material<S>,
}

impl<S: Scalar> Sphere<S> {
    /// The sphere of the given radius and material around `center`.
    pub fn new(center: Vec3<S>, radius: S, material: Material<S>) -> (r: Self)
        ensures
            r.center == center,
            r.radius == radius,
            r.material == material,
    {
        Sphere { center, radius, material }
    }

    /// How far along `ray` the centre of the sphere lies: the scalar product
    /// of the ray's direction with the way from its origin to the centre.
    pub open spec fn projection(&self, ray: &Ray<S>) -> S {
        Vec3::dot(&self.center.sub(ray.origin), &ray.direction)
    }

    /// The distance from the centre of the sphere to the point of `ray`
    /// that the projection marks. For a direction of length one that point
    /// is the one nearest to the centre.
    pub open spec fn distance_to_ray(&self, ray: &Ray<S>) -> S {
        let to_center = self.center.sub(ray.origin);
        let along = ray.direction.mul(
            Vec3::dot(&ray.direction, &to_center).div(ray.direction.lenght()),
        );
        self.center.sub(ray.origin.add(along)).lenght()
    }

    /// Half the length of the chord that `ray` cuts out of the sphere.
    pub open spec fn half_chord(&self, ray: &Ray<S>) -> S {
        let d = self.distance_to_ray(ray);
        self.radius.mul(self.radius).sub(d.mul(d)).sqrt()
    }

    /// The hit of `ray` at the distance `hit_distance`, with the ray leaving
    /// the sphere at `exit_distance`. The normal is the unit vector from the
    /// centre to the hit point.
    pub open spec fn hit_at(&self, ray: &Ray<S>, hit_distance: S, exit_distance: S) -> HitInfos<S> {
        let hit_point = ray.origin.add(ray.direction.mul(hit_distance));
        HitInfos {
            hit_point,
            exit_point: ray.origin.add(ray.direction.mul(exit_distance)),
            hit_distance,
            normal: hit_point.sub(self.center).normalize(),
            material: self.material,
        }
    }
}

impl<S: Scalar> Hitable<S> for Sphere<S> {
    /// A ray hits the sphere where the centre lies ahead of its origin, the
    /// ray passes the centre at less than the radius, and the origin is not
    /// inside the sphere. The ray then enters half a chord before the
    /// projection of the centre and leaves half a chord behind it. A ray that
    /// starts inside the sphere does not hit it. The direction of the ray is
    /// taken to have length one.
    open spec fn hit(&self, ray: &Ray<S>) -> Option<HitInfos<S>> {
        let p = self.projection(ray);
        if p.le(S::from_usize(0)) {
            None
        } else if self.distance_to_ray(ray).lt(self.radius) {
            let a = self.half_chord(ray);
            if p.sub(a).lt(S::from_usize(0)) {
                None
            } else {
                Some(self.hit_at(ray, p.sub(a), p.add(a)))
            }
        } else {
            None
        }
    }

    fn ray_intersect(&self, ray: &Ray<S>) -> (r: Option<HitInfos<S>>)
        ensures
            self.projection(ray).le(S::from_usize(0)) ==> r is None,
            !self.distance_to_ray(ray).lt(self.radius) ==> r is None,
            r matches Some(info) ==> info.hit_distance == self.projection(ray).sub(
                self.half_chord(ray),
            ) && info.material == self.material,
    {
        let zero = S::from_usize(0);
        let v = self.center.sub(ray.origin);
        let p = Vec3::dot(&v, &ray.direction);
        if p.le(zero) {
            return None;
        }
        let pc = ray.direction.mul(Vec3::dot(&ray.direction, &v).div(ray.direction.lenght()));
        let d = self.center.sub(ray.origin.add(pc)).lenght();
        if d.lt(self.radius) {
            let a = self.radius.mul(self.radius).sub(d.mul(d)).sqrt();
            let hit_distance = p.sub(a);
            let exit_distance = p.add(a);
            if hit_distance.lt(zero) {
                return None;
            }
            let hit_point = ray.origin.add(ray.direction.mul(hit_distance));
            let exit_point = ray.origin.add(ray.direction.mul(exit_distance));
            let normal = hit_point.sub(self.center).normalize();
            return Some(
                HitInfos { hit_point, exit_point, hit_distance, normal, material: self.material },
            );
        }
        None
    }
}

impl<S: OrderedScalar> Sphere<S> {
    /// With a well-behaved order, a sphere is hit only where its centre
    /// lies ahead of the ray and nearer to the ray than the radius, and then
    /// at a distance that is not negative: a sphere behind the ray is never
    /// hit, whatever its radius.
    pub proof fn lemma_hit_lies_ahead(&self, ray: &Ray<S>)
        ensures
            self.hit(ray) matches Some(info) ==> {
                &&& S::from_usize(0).lt(self.projection(ray))
                &&& self.distance_to_ray(ray).lt(self.radius)
                &&& S::from_usize(0).le(info.hit_distance)
            },
            !S::from_usize(0).lt(self.projection(ray)) ==> self.hit(ray) is None,
    {
        let zero = S::from_usize(0);
        S::lemma_le_is_not_gt(self.projection(ray), zero);
        S::lemma_le_is_not_gt(zero, self.projection(ray).sub(self.half_chord(ray)));
    }
}

} // verus!
