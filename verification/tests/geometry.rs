use raytracer::fixed::Fixed;
use raytracer::hitable::{HitInfos, Hitable};
use raytracer::material::Material;
use raytracer::ray::Ray;
use raytracer::sphere::Sphere;
use raytracer::vec3::Vec3;

fn fx(raw: i64) -> Fixed {
    Fixed::new(raw)
}

/// A vector from thousandths.
fn vec(x: i64, y: i64, z: i64) -> Vec3<Fixed> {
    Vec3::new(fx(x * 1000), fx(y * 1000), fx(z * 1000))
}

fn raw(x: i64, y: i64, z: i64) -> Vec3<Fixed> {
    Vec3::new(fx(x), fx(y), fx(z))
}

fn ivory() -> Material<Fixed> {
    Material::new(
        vec(400, 400, 300),
        fx(600_000),
        fx(50_000_000),
        fx(300_000),
        fx(100_000),
        fx(1_000_000),
        fx(0),
    )
}

fn hit_at(distance: i64) -> HitInfos<Fixed> {
    HitInfos {
        hit_point: vec(0, 0, -distance),
        exit_point: vec(0, 0, -distance - 1),
        hit_distance: fx(distance * 1000),
        normal: vec(0, 0, 1000),
        material: ivory(),
    }
}

#[test]
fn vector_algebra() {
    let a = vec(1000, 2000, 3000);
    let b = vec(-4000, 500, 2000);
    assert_eq!(a.add(b), vec(-3000, 2500, 5000));
    assert_eq!(a.sub(b), vec(5000, 1500, 1000));
    assert_eq!(a.mul(fx(500_000)), vec(500, 1000, 1500));
    assert_eq!(a.div(fx(4_000_000)), vec(250, 500, 750));
    assert_eq!(a.neg(), vec(-1000, -2000, -3000));
    assert_eq!(Vec3::dot(&a, &b), fx(3_000_000));
    assert_eq!(Vec3::cross(&a, &b), vec(2500, -14000, 8500));
    assert_eq!(a.lenght_squared(), fx(14_000_000));
    assert_eq!(a.lenght(), fx(3_741_657));
    assert_eq!(a.normalize(), raw(267_261, 534_522, 801_783));
    assert_eq!(vec(3000, 4000, 0).normalize(), vec(600, 800, 0));
    assert_eq!(vec(0, 0, 0).normalize(), vec(0, 0, 0));
}

#[test]
fn vector_operators() {
    let a = vec(1000, 2000, 3000);
    let b = vec(-4000, 500, 2000);
    assert_eq!(a + b, vec(-3000, 2500, 5000));
    assert_eq!(a - b, vec(5000, 1500, 1000));
    assert_eq!(a * fx(500_000), vec(500, 1000, 1500));
    assert_eq!(a / fx(4_000_000), vec(250, 500, 750));
    assert_eq!(a / fx(3_000_000), raw(333_333, 666_666, 999_999));
    assert_eq!(-a, vec(-1000, -2000, -3000));
    assert_eq!(a + b * fx(2_000_000) - (-a), vec(-6000, 5000, 10000));
    assert_eq!(a + b, a.add(b));
    assert_eq!(a - b, a.sub(b));
    assert_eq!(a * fx(123_456), a.mul(fx(123_456)));
    assert_eq!(a / fx(123_456), a.div(fx(123_456)));
    assert_eq!(-a, a.neg());
}

#[test]
fn vector_parts_are_kept() {
    let v = Vec3::new(fx(1), fx(2), fx(3));
    assert_eq!((v.x, v.y, v.z), (fx(1), fx(2), fx(3)));
    let r = Ray::new(vec(1, 2, 3), vec(4, 5, 6));
    assert_eq!(r.origin, vec(1, 2, 3));
    assert_eq!(r.direction, vec(4, 5, 6));
    let m = ivory();
    assert_eq!(m.color, vec(400, 400, 300));
    assert_eq!(m.color_albedo, fx(600_000));
    assert_eq!(m.specular_exponent, fx(50_000_000));
    assert_eq!(m.specular_albedo, fx(300_000));
    assert_eq!(m.reflexion_factor, fx(100_000));
    assert_eq!(m.refraction_index, fx(1_000_000));
    assert_eq!(m.transparency_factor, fx(0));
    let s = Sphere::new(vec(1, 2, 3), fx(7), m);
    assert_eq!(s.center, vec(1, 2, 3));
    assert_eq!(s.radius, fx(7));
    assert_eq!(s.material, m);
}

#[test]
fn colour_as_pixmap_line() {
    assert_eq!(vec(500, 2000, -1000).get_color(), "63 255 0\n");
    assert_eq!(vec(1000, 1000, 1000).get_color(), "255 255 255\n");
    assert_eq!(vec(0, 0, 0).get_color(), "0 0 0\n");
    assert_eq!(vec(200, 700, 900).get_color(), "51 178 229\n");
    assert_eq!(vec(4000, 1000, 2000).get_color(), "255 63 127\n");
    assert_eq!(vec(-1000, -2000, -3000).get_color(), "0 0 0\n");
    assert_eq!(raw(3_922, 39_216, 392_157).get_color(), "1 10 100\n");
}

#[test]
fn sphere_at_the_origin_seen_from_five_away() {
    let ray = Ray::new(vec(0, 0, 5000), vec(0, 0, -1000));
    let hit = Sphere::new(vec(0, 0, 0), fx(2_000_000), ivory()).ray_intersect(&ray).unwrap();
    assert_eq!(hit.hit_distance, fx(3_000_000));
    assert_eq!(hit.hit_point, vec(0, 0, 2000));
    assert_eq!(hit.exit_point, vec(0, 0, -2000));
    assert_eq!(hit.normal, vec(0, 0, 1000));
    assert_eq!(hit.material, ivory());

    let hit = Sphere::new(vec(0, 0, 0), fx(1_500_000), ivory()).ray_intersect(&ray).unwrap();
    assert_eq!(hit.hit_distance, fx(3_500_000));
    assert_eq!(hit.hit_point, vec(0, 0, 1500));
    assert_eq!(hit.exit_point, vec(0, 0, -1500));
    assert_eq!(hit.normal, raw(0, 0, 999_999));

    let hit = Sphere::new(vec(0, 0, 0), fx(300_000), ivory()).ray_intersect(&ray).unwrap();
    assert_eq!(hit.hit_distance, fx(4_700_000));
    assert_eq!(hit.hit_point, vec(0, 0, 300));
    assert_eq!(hit.exit_point, vec(0, 0, -300));
}

#[test]
fn sphere_hit_beside_its_centre() {
    let sphere = Sphere::new(vec(1000, 0, -10000), fx(2_000_000), ivory());
    let hit = sphere.ray_intersect(&Ray::new(vec(0, 0, 0), vec(0, 0, -1000))).unwrap();
    assert_eq!(hit.hit_distance, fx(8_267_950));
    assert_eq!(hit.hit_point, raw(0, 0, -8_267_950));
    assert_eq!(hit.exit_point, raw(0, 0, -11_732_050));
    assert_eq!(hit.normal, raw(-500_000, 0, 866_025));

    let sphere = Sphere::new(vec(3000, 0, -4000), fx(1_000_000), ivory());
    let hit = sphere.ray_intersect(&Ray::new(vec(0, 0, 0), vec(600, 0, -800))).unwrap();
    assert_eq!(hit.hit_distance, fx(4_000_000));
    assert_eq!(hit.hit_point, vec(2400, 0, -3200));
    assert_eq!(hit.exit_point, vec(3600, 0, -4800));
    assert_eq!(hit.normal, vec(-600, 0, 800));
}

#[test]
fn sphere_behind_the_ray_is_not_hit() {
    let ray = Ray::new(vec(0, 0, 0), vec(0, 0, -1000));
    for radius in [1, 1_000_000, 2_000_000, 9_999_999, 10_000_000, 50_000_000, i64::MAX] {
        let sphere = Sphere::new(vec(0, 0, 10000), fx(radius), ivory());
        assert!(sphere.ray_intersect(&ray).is_none());
        let beside = Sphere::new(vec(5000, 0, 0), fx(radius), ivory());
        assert!(beside.ray_intersect(&ray).is_none());
    }
}

#[test]
fn sphere_that_the_ray_passes_is_not_hit() {
    let ray = Ray::new(vec(0, 0, 0), vec(0, 0, -1000));
    let grazed = Sphere::new(vec(2000, 0, -10000), fx(2_000_000), ivory());
    assert!(grazed.ray_intersect(&ray).is_none());
    let nearly = Sphere::new(vec(2000, 0, -10000), fx(2_000_001), ivory());
    assert!(nearly.ray_intersect(&ray).is_some());
    let far = Sphere::new(vec(0, 0, -10000), fx(2_000_000), ivory());
    assert!(far.ray_intersect(&Ray::new(vec(0, 0, 0), vec(600, 0, -800))).is_none());
}

#[test]
fn ray_that_starts_inside_a_sphere_does_not_hit_it() {
    let ray = Ray::new(vec(0, 0, 0), vec(0, 0, -1000));
    let around = Sphere::new(vec(0, 0, -1000), fx(2_000_000), ivory());
    assert!(around.ray_intersect(&ray).is_none());
    let around_looking_away = Sphere::new(vec(0, 0, 1000), fx(2_000_000), ivory());
    assert!(around_looking_away.ray_intersect(&ray).is_none());
    let on_the_surface = Sphere::new(vec(0, 0, -2000), fx(2_000_000), ivory());
    let hit = on_the_surface.ray_intersect(&ray).unwrap();
    assert_eq!(hit.hit_distance, fx(0));
    assert_eq!(hit.exit_point, vec(0, 0, -4000));
}

#[test]
fn closest_of_no_hits_is_none() {
    assert!(HitInfos::<Fixed>::get_closest(vec![]).is_none());
    assert!(HitInfos::<Fixed>::get_closest(vec![None]).is_none());
    assert!(HitInfos::<Fixed>::get_closest(vec![None, None, None]).is_none());
}

#[test]
fn closest_has_the_least_distance() {
    let hits = vec![Some(hit_at(7000)), None, Some(hit_at(3000)), Some(hit_at(5000)), None];
    assert_eq!(HitInfos::get_closest(hits), Some(hit_at(3000)));
    let hits = vec![None, None, Some(hit_at(9000))];
    assert_eq!(HitInfos::get_closest(hits), Some(hit_at(9000)));
    let hits = vec![Some(hit_at(1)), Some(hit_at(2)), Some(hit_at(3))];
    assert_eq!(HitInfos::get_closest(hits), Some(hit_at(1)));
    let hits = vec![Some(hit_at(3)), Some(hit_at(2)), Some(hit_at(1))];
    assert_eq!(HitInfos::get_closest(hits), Some(hit_at(1)));
    let hits = vec![Some(hit_at(0)), Some(hit_at(-5)), None];
    assert_eq!(HitInfos::get_closest(hits), Some(hit_at(-5)));
}

#[test]
fn closest_of_equal_distances_is_the_first() {
    let mut first = hit_at(4000);
    first.normal = vec(1000, 0, 0);
    let mut second = hit_at(4000);
    second.normal = vec(0, 1000, 0);
    let mut third = hit_at(4000);
    third.normal = vec(0, 0, -1000);
    let hits = vec![Some(hit_at(6000)), Some(first), None, Some(second), Some(third)];
    assert_eq!(HitInfos::get_closest(hits), Some(first));
    let hits = vec![Some(third), Some(second), Some(first)];
    assert_eq!(HitInfos::get_closest(hits), Some(third));
}

#[test]
fn closest_is_no_farther_than_any_hit() {
    let distances = [5, 3, 9, 3, 7, 1, 1, 8];
    for len in 0..=distances.len() {
        let hits: Vec<Option<HitInfos<Fixed>>> =
            distances[..len].iter().map(|&d| Some(hit_at(d))).collect();
        let picked = HitInfos::get_closest(hits);
        match distances[..len].iter().min() {
            None => assert!(picked.is_none()),
            Some(&least) => assert_eq!(picked, Some(hit_at(least))),
        }
    }
}
