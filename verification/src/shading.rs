//! What a ray brings from a scene: the colour of its nearest hit, from the
//! lights, from the mirrored ray and from the refracted ray.

use crate::hitable::{HitInfos, Hitable};
use crate::light::Light;
use crate::ray::Ray;
use crate::scalar::Scalar;
use crate::scene::Scene;
use crate::vec3::Vec3;
use vstd::prelude::*;

verus! {

/// The light that reaches a point of a surface, summed over the lights.
#[derive(Clone, Copy, Debug, PartialEq)]
pub struct Illumination<S> {
    /// The diffuse part.
    pub diffuse: S,
    /// The part that makes the highlight.
    pub specular: S,
}

impl<S: Scalar, H: Hitable<S>> Scene<S, H> {
    /// The colour of what no ray hits.
    pub open spec fn spec_background() -> Vec3<S> {
        Vec3 { x: S::fraction(2, 10), y: S::fraction(7, 10), z: S::fraction(9, 10) }
    }

    /// How far the origin of a secondary ray is moved off the surface.
    pub open spec fn spec_epsilon() -> S {
        S::fraction(1, 1000)
    }

    /// The mirror image of `incident` at a surface with the unit normal `normal`.
    pub open spec fn spec_reflect(incident: &Vec3<S>, normal: &Vec3<S>) -> Vec3<S> {
        incident.sub(normal.mul(S::from_usize(2)).mul(Vec3::dot(incident, normal)))
    }

    /// The cosine of the angle of incidence, counted positive: minus the
    /// scalar product of `incident` and `normal`, cut to the range from -1
    /// to 1, and its sign dropped.
    pub open spec fn incidence_cosine(incident: &Vec3<S>, normal: &Vec3<S>) -> S {
        let cosi = Vec3::dot(incident, normal).min(S::from_usize(1)).max(
            S::from_usize(1).neg(),
        ).neg();
        if cosi.lt(S::from_usize(0)) {
            cosi.neg()
        } else {
            cosi
        }
    }

    /// Whether a ray along `incident` leaves the medium behind the surface:
    /// whether it runs with the normal, not against it.
    pub open spec fn leaves_medium(incident: &Vec3<S>, normal: &Vec3<S>) -> bool {
        Vec3::dot(incident, normal).min(S::from_usize(1)).max(S::from_usize(1).neg()).neg().lt(
            S::from_usize(0),
        )
    }

    /// The ratio of the refraction index on the side the ray comes from to
    /// the one on the side it goes to. Outside the medium the index is one.
    pub open spec fn index_ratio(incident: &Vec3<S>, normal: &Vec3<S>, refraction_index: S) -> S {
        if Self::leaves_medium(incident, normal) {
            refraction_index.div(S::from_usize(1))
        } else {
            S::from_usize(1).div(refraction_index)
        }
    }

    /// The transmission coefficient `1 - eta^2 * (1 - cos^2)`. Where it is
    /// negative, no light passes the surface.
    pub open spec fn transmission(incident: &Vec3<S>, normal: &Vec3<S>, refraction_index: S) -> S {
        let eta = Self::index_ratio(incident, normal, refraction_index);
        let cosi = Self::incidence_cosine(incident, normal);
        S::from_usize(1).sub(eta.mul(eta).mul(S::from_usize(1).sub(cosi.mul(cosi))))
    }

    /// The direction of `incident` after passing a surface into, or out of,
    /// a medium with the given refraction index; `None` where the surface
    /// reflects all of it.
    pub open spec fn spec_refract(
        incident: &Vec3<S>,
        normal: &Vec3<S>,
        refraction_index: S,
    ) -> Option<Vec3<S>> {
        let eta = Self::index_ratio(incident, normal, refraction_index);
        let cosi = Self::incidence_cosine(incident, normal);
        let k = Self::transmission(incident, normal, refraction_index);
        let n = if Self::leaves_medium(incident, normal) {
            normal.neg()
        } else {
            *normal
        };
        if k.lt(S::from_usize(0)) {
            None
        } else {
            Some(incident.mul(eta).add(n.mul(eta.mul(cosi).sub(k.sqrt()))))
        }
    }

    /// The origin of a secondary ray that leaves `point` along `direction`:
    /// `point` moved by epsilon along the normal, to the side that
    /// `direction` points to.
    pub open spec fn spec_offset_origin(
        point: &Vec3<S>,
        normal: &Vec3<S>,
        direction: &Vec3<S>,
    ) -> Vec3<S> {
        if S::from_usize(0).lt(Vec3::dot(direction, normal)) {
            point.add(normal.mul(Self::spec_epsilon()))
        } else {
            point.sub(normal.mul(Self::spec_epsilon()))
        }
    }

    /// What each object of the scene answers to `ray`, in the order of the objects.
    pub open spec fn hits(&self, ray: &Ray<S>) -> Seq<Option<HitInfos<S>>> {
        Seq::new(self.objects@.len(), |k: int| self.objects@[k].hit(ray))
    }

    /// The nearest hit of `ray` on an object of the scene.
    pub open spec fn spec_closest_hit(&self, ray: &Ray<S>) -> Option<HitInfos<S>> {
        HitInfos::closest(self.hits(ray))
    }

    /// The unit vector from the hit point towards the light.
    pub open spec fn light_direction(hit: &HitInfos<S>, light: &Light<S>) -> Vec3<S> {
        light.position.sub(hit.hit_point).normalize()
    }

    /// The ray from the hit point towards the light.
    pub open spec fn shadow_ray(hit: &HitInfos<S>, light: &Light<S>) -> Ray<S> {
        let direction = Self::light_direction(hit, light);
        Ray { origin: Self::spec_offset_origin(&hit.hit_point, &hit.normal, &direction), direction }
    }

    /// Whether an object stands between the hit point and the light: whether
    /// the shadow ray hits one before it has gone as far as the light is away.
    pub open spec fn spec_in_shadow(&self, hit: &HitInfos<S>, light: &Light<S>) -> bool {
        let ray = Self::shadow_ray(hit, light);
        match self.spec_closest_hit(&ray) {
            Some(shadow) => shadow.hit_point.sub(ray.origin).lenght().lt(
                light.position.sub(hit.hit_point).lenght(),
            ),
            None => false,
        }
    }

    /// The diffuse light that `light` sheds on the hit point when nothing
    /// shades it: the intensity times the cosine of the angle between the
    /// normal and the direction to the light, or nothing where that is negative.
    pub open spec fn diffuse_share(hit: &HitInfos<S>, light: &Light<S>) -> S {
        light.intensity.mul(
            Vec3::dot(&Self::light_direction(hit, light), &hit.normal).max(S::from_usize(0)),
        )
    }

    /// The highlight that `light` makes at the hit point for the eye that
    /// `ray` comes from, when nothing shades it.
    pub open spec fn specular_share(ray: &Ray<S>, hit: &HitInfos<S>, light: &Light<S>) -> S {
        Vec3::dot(
            &Self::spec_reflect(&Self::light_direction(hit, light), &hit.normal),
            &ray.direction,
        ).max(S::from_usize(0)).powf(hit.material.specular_exponent).mul(light.intensity)
    }

    /// `sum` with the light of `light` added, unless the hit point lies in
    /// its shadow.
    pub open spec fn spec_add_light(
        &self,
        ray: &Ray<S>,
        hit: &HitInfos<S>,
        light: &Light<S>,
        sum: Illumination<S>,
    ) -> Illumination<S> {
        if self.spec_in_shadow(hit, light) {
            sum
        } else {
            Illumination {
                diffuse: sum.diffuse.add(Self::diffuse_share(hit, light)),
                specular: sum.specular.add(Self::specular_share(ray, hit, light)),
            }
        }
    }

    /// The light of the first `count` lights of the scene at the hit point,
    /// added up in their order.
    pub open spec fn illumination(&self, ray: &Ray<S>, hit: &HitInfos<S>, count: nat) -> Illumination<
        S,
    >
        decreases count,
    {
        if count == 0 {
            Illumination { diffuse: S::from_usize(0), specular: S::from_usize(0) }
        } else {
            self.spec_add_light(
                ray,
                hit,
                &self.lights@[count - 1],
                self.illumination(ray, hit, (count - 1) as nat),
            )
        }
    }

    /// The ray that `ray` becomes when the surface at the hit mirrors it.
    pub open spec fn reflected_ray(ray: &Ray<S>, hit: &HitInfos<S>) -> Ray<S> {
        let direction = Self::spec_reflect(&ray.direction, &hit.normal);
        Ray { origin: Self::spec_offset_origin(&hit.hit_point, &hit.normal, &direction), direction }
    }

    /// The ray that `ray` becomes when it passes the surface at the hit, its
    /// direction normalized; `None` where the surface reflects all of it.
    pub open spec fn refracted_ray(ray: &Ray<S>, hit: &HitInfos<S>) -> Option<Ray<S>> {
        match Self::spec_refract(&ray.direction, &hit.normal, hit.material.refraction_index) {
            Some(refracted) => {
                let direction = refracted.normalize();
                Some(
                    Ray {
                        origin: Self::spec_offset_origin(&hit.hit_point, &hit.normal, &direction),
                        direction,
                    },
                )
            },
            None => None,
        }
    }

    /// The colour of a hit, from the light at the hit point and from the
    /// colours that come along the mirrored and the refracted ray: each of
    /// the four parts weighted by the material, and the parts added in the
    /// order diffuse, highlight, mirrored, refracted.
    pub open spec fn spec_shade(
        hit: &HitInfos<S>,
        light: Illumination<S>,
        reflected: Vec3<S>,
        refracted: Vec3<S>,
    ) -> Vec3<S> {
        let one = S::from_usize(1);
        let material = hit.material;
        material.color.mul(light.diffuse).mul(material.color_albedo).add(
            Vec3 { x: one, y: one, z: one }.mul(light.specular).mul(material.specular_albedo),
        ).add(reflected.mul(material.reflexion_factor)).add(
            refracted.mul(material.transparency_factor),
        )
    }

    /// The colour that comes along `ray` when the ray has been mirrored or
    /// refracted `depth` times already.
    ///
    /// A ray that hits nothing, or that has been turned more often than the
    /// scene allows, brings the colour of the background. Every other ray
    /// brings the colour of its nearest hit; for that, a mirrored ray is
    /// followed, and a refracted one unless the surface reflects all.
    pub open spec fn radiance(&self, ray: &Ray<S>, depth: nat) -> Vec3<S>
        decreases self.max_recurtion + 1 - depth,
    {
        match self.spec_closest_hit(ray) {
            Some(hit) if depth <= self.max_recurtion => {
                let zero = S::from_usize(0);
                Self::spec_shade(
                    &hit,
                    self.illumination(ray, &hit, self.lights@.len()),
                    self.radiance(&Self::reflected_ray(ray, &hit), depth + 1),
                    match Self::refracted_ray(ray, &hit) {
                        Some(passing) => self.radiance(&passing, depth + 1),
                        None => Vec3 { x: zero, y: zero, z: zero },
                    },
                )
            },
            _ => Self::spec_background(),
        }
    }

    /// The colour of what no ray hits.
    #[verifier::when_used_as_spec(spec_background)]
    pub fn background() -> (r: Vec3<S>)
        ensures
            r == Self::spec_background(),
    {
        Vec3::new(S::fraction(2, 10), S::fraction(7, 10), S::fraction(9, 10))
    }

    /// The mirror image of `incident` at a surface with the unit normal `normal`.
    #[verifier::when_used_as_spec(spec_reflect)]
    pub fn reflect(impident: &Vec3<S>, normal: &Vec3<S>) -> (r: Vec3<S>)
        ensures
            r == Self::spec_reflect(impident, normal),
    {
        impident.sub(normal.mul(S::from_usize(2)).mul(Vec3::dot(impident, normal)))
    }

    /// The direction of `incident` after passing a surface into, or out of,
    /// a medium with the given refraction index; `None` where the surface
    /// reflects all of it.
    #[verifier::when_used_as_spec(spec_refract)]
    pub fn refract(impident: &Vec3<S>, normal: &Vec3<S>, refraction_index: S) -> (r: Option<
        Vec3<S>,
    >)
        ensures
            r == Self::spec_refract(impident, normal, refraction_index),
            r is None <==> Self::transmission(impident, normal, refraction_index).lt(
                S::from_usize(0),
            ),
    {
        let zero = S::from_usize(0);
        let one = S::from_usize(1);
        let mut cosi = Vec3::dot(impident, normal).min(one).max(one.neg()).neg();
        let mut etai = one;
        let mut etat = refraction_index;
        let mut n = *normal;
        if cosi.lt(zero) {
            cosi = cosi.neg();
            n = normal.neg();
            etai = refraction_index;
            etat = one;
        }
        let eta = etai.div(etat);
        let k = one.sub(eta.mul(eta).mul(one.sub(cosi.mul(cosi))));
        if k.lt(zero) {
            None
        } else {
            Some(impident.mul(eta).add(n.mul(eta.mul(cosi).sub(k.sqrt()))))
        }
    }

    /// The origin of a secondary ray that leaves `point` along `direction`:
    /// `point` moved by epsilon along the normal, to the side that
    /// `direction` points to.
    #[verifier::when_used_as_spec(spec_offset_origin)]
    pub fn offset_origin(point: &Vec3<S>, normal: &Vec3<S>, direction: &Vec3<S>) -> (r: Vec3<S>)
        ensures
            r == Self::spec_offset_origin(point, normal, direction),
    {
        let epsilon = S::fraction(1, 1000);
        if S::from_usize(0).lt(Vec3::dot(direction, normal)) {
            point.add(normal.mul(epsilon))
        } else {
            point.sub(normal.mul(epsilon))
        }
    }

    /// Intersects `ray` with every object and picks the nearest hit.
    #[verifier::when_used_as_spec(spec_closest_hit)]
    pub fn closest_hit(&self, ray: &Ray<S>) -> (r: Option<HitInfos<S>>)
        ensures
            r == self.spec_closest_hit(ray),
    {
        let mut infos: Vec<Option<HitInfos<S>>> = Vec::new();
        let mut k: usize = 0;
        while k < self.objects.len()
            invariant
                k <= self.objects@.len(),
                infos@.len() == k,
                forall|i: int| 0 <= i < k ==> infos@[i] == self.objects@[i].hit(ray),
            decreases self.objects.len() - k,
        {
            infos.push(self.objects[k].ray_intersect(ray));
            k += 1;
        }
        proof {
            assert(infos@ =~= self.hits(ray));
        }
        HitInfos::get_closest(infos)
    }

    /// Whether the hit point lies in the shadow that an object casts from `light`.
    #[verifier::when_used_as_spec(spec_in_shadow)]
    pub fn in_shadow(&self, hit: &HitInfos<S>, light: &Light<S>) -> (r: bool)
        ensures
            r == self.spec_in_shadow(hit, light),
    {
        let to_light = light.position.sub(hit.hit_point);
        let light_dir = to_light.normalize();
        let light_dist = to_light.lenght();
        let shadow_origin = Self::offset_origin(&hit.hit_point, &hit.normal, &light_dir);
        let shadow_ray = Ray::new(shadow_origin, light_dir);
        match self.closest_hit(&shadow_ray) {
            Some(shadow) => shadow.hit_point.sub(shadow_origin).lenght().lt(light_dist),
            None => false,
        }
    }

    /// Adds to `sum` what `light` sheds on the hit point. A light that an
    /// object shades adds nothing; any other adds its intensity times the
    /// cosine of its angle to the normal to the diffuse part, and its
    /// highlight to the specular part.
    #[verifier::when_used_as_spec(spec_add_light)]
    pub fn add_light(
        &self,
        ray: &Ray<S>,
        hit: &HitInfos<S>,
        light: &Light<S>,
        sum: Illumination<S>,
    ) -> (r: Illumination<S>)
        ensures
            r == self.spec_add_light(ray, hit, light, sum),
            self.in_shadow(hit, light) ==> r == sum,
            !self.in_shadow(hit, light) ==> r.diffuse == sum.diffuse.add(
                light.intensity.mul(
                    Vec3::dot(&Self::light_direction(hit, light), &hit.normal).max(
                        S::from_usize(0),
                    ),
                ),
            ),
            !self.in_shadow(hit, light) ==> r.specular == sum.specular.add(
                Self::specular_share(ray, hit, light),
            ),
    {
        if self.in_shadow(hit, light) {
            return sum;
        }
        let zero = S::from_usize(0);
        let light_dir = light.position.sub(hit.hit_point).normalize();
        let dot = Vec3::dot(&light_dir, &hit.normal);
        let specular_reflect_dir = Self::reflect(&light_dir, &hit.normal);
        Illumination {
            diffuse: sum.diffuse.add(light.intensity.mul(dot.max(zero))),
            specular: sum.specular.add(
                Vec3::dot(&specular_reflect_dir, &ray.direction).max(zero).powf(
                    hit.material.specular_exponent,
                ).mul(light.intensity),
            ),
        }
    }

    /// The light of all lights of the scene at the hit point.
    pub fn illuminate(&self, ray: &Ray<S>, hit: &HitInfos<S>) -> (r: Illumination<S>)
        ensures
            r == self.illumination(ray, hit, self.lights@.len()),
    {
        let zero = S::from_usize(0);
        let mut sum = Illumination { diffuse: zero, specular: zero };
        let mut k: usize = 0;
        while k < self.lights.len()
            invariant
                k <= self.lights@.len(),
                sum == self.illumination(ray, hit, k as nat),
            decreases self.lights.len() - k,
        {
            sum = self.add_light(ray, hit, &self.lights[k], sum);
            k += 1;
        }
        sum
    }

    /// The colour of a hit, from the light at the hit point and from the
    /// colours that come along the mirrored and the refracted ray: each of
    /// the four parts weighted by the material, and the parts added in the
    /// order diffuse, highlight, mirrored, refracted.
    #[verifier::when_used_as_spec(spec_shade)]
    pub fn shade(
        hit: &HitInfos<S>,
        light: Illumination<S>,
        reflected: Vec3<S>,
        refracted: Vec3<S>,
    ) -> (r: Vec3<S>)
        ensures
            r == Self::spec_shade(hit, light, reflected, refracted),
    {
        let one = S::from_usize(1);
        let material = hit.material;
        let mut color = material.color;
        color = color.mul(light.diffuse).mul(material.color_albedo);
        color = color.add(Vec3::new(one, one, one).mul(light.specular).mul(material.specular_albedo));
        color = color.add(reflected.mul(material.reflexion_factor));
        color = color.add(refracted.mul(material.transparency_factor));
        color
    }

    /// Follows `ray` into the scene and returns the colour that comes along
    /// it. `recurtion` says how often the ray has been mirrored or refracted
    /// on its way; a ray that was turned more often than `max_recurtion`
    /// brings the colour of the background, whatever it hits.
    pub fn cast_ray(&self, ray: &Ray<S>, recurtion: usize) -> (r: Vec3<S>)
        ensures
            r == self.radiance(ray, recurtion as nat),
            recurtion > self.max_recurtion ==> r == Self::background(),
            self.closest_hit(ray) is None ==> r == Self::background(),
        decreases self.max_recurtion + 1 - recurtion, 0nat,
    {
        let closest = self.closest_hit(ray);
        if recurtion > self.max_recurtion {
            return Self::background();
        }
        let hit = match closest {
            Some(hit) => hit,
            None => {
                return Self::background();
            },
        };
        let light = self.illuminate(ray, &hit);

        let reflect_dir = Self::reflect(&ray.direction, &hit.normal);
        let reflect_origin = Self::offset_origin(&hit.hit_point, &hit.normal, &reflect_dir);
        let reflect_ray = Ray::new(reflect_origin, reflect_dir);
        let reflect_color = self.cast_deeper(&reflect_ray, recurtion);

        let zero = S::from_usize(0);
        let refract_color = match Self::refract(
            &ray.direction,
            &hit.normal,
            hit.material.refraction_index,
        ) {
            Some(refracted) => {
                let refract_dir = refracted.normalize();
                let refract_origin = Self::offset_origin(&hit.hit_point, &hit.normal, &refract_dir);
                let refract_ray = Ray::new(refract_origin, refract_dir);
                self.cast_deeper(&refract_ray, recurtion)
            },
            None => Vec3::new(zero, zero, zero),
        };
        Self::shade(&hit, light, reflect_color, refract_color)
    }

    /// Follows a ray that was turned once more than `recurtion` times.
    fn cast_deeper(&self, ray: &Ray<S>, recurtion: usize) -> (r: Vec3<S>)
        requires
            recurtion <= self.max_recurtion,
        ensures
            r == self.radiance(ray, (recurtion + 1) as nat),
        decreases self.max_recurtion - recurtion, 1nat,
    {
        if recurtion < usize::MAX {
            self.cast_ray(ray, recurtion + 1)
        } else {
            Self::background()
        }
    }
}

} // verus!
