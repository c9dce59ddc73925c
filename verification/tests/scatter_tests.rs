use raytracer::color::Color;
use raytracer::fx::FX_HALF;
use raytracer::fx::FX_ONE;
use raytracer::hittable::Hit;
use raytracer::materials::Dielectric;
use raytracer::materials::Lambertian;
use raytracer::materials::Materials;
use raytracer::ray::Ray;
use raytracer::rng::Rng;
use raytracer::vec3::Vec3;

fn down_ray() -> Ray {
    Ray::new(Vec3::new(0, 2 * FX_ONE, 0), Vec3::new(0, -FX_ONE, 0), FX_HALF)
}

fn floor_hit(mat: Materials) -> Hit {
    // the ray from down_ray striking the plane y = 0 from above
    Hit::new(
        &down_ray(),
        Vec3::new(0, 0, 0),
        Vec3::new(0, FX_ONE, 0),
        mat,
        2 * FX_ONE,
    )
}

#[test]
fn hit_orients_the_normal_against_the_ray() {
    let mat = Materials::Lambertian(Lambertian::new(Color::white()));
    let from_above = floor_hit(mat);
    assert!(from_above.front_face);
    assert_eq!(from_above.normal, Vec3::new(0, FX_ONE, 0));
    let up_ray = Ray::new(Vec3::new(0, -FX_ONE, 0), Vec3::new(0, FX_ONE, 0), 0);
    let from_below = Hit::new(&up_ray, Vec3::new(0, 0, 0), Vec3::new(0, FX_ONE, 0), mat, FX_ONE);
    assert!(!from_below.front_face);
    assert_eq!(from_below.normal, Vec3::new(0, -FX_ONE, 0));
}

#[test]
fn lambertian_always_scatters_from_the_hit_point() {
    let albedo = Color::from_channels(FX_HALF, FX_HALF / 2, FX_ONE);
    let mat = Lambertian::new(albedo);
    let hit = floor_hit(Materials::Lambertian(mat));
    for seed in 0..32u64 {
        let mut rng = Rng::new(seed);
        let (scattered, attenuation) = mat.scatter(&down_ray(), &hit, &mut rng).unwrap();
        assert_eq!(scattered.origin(), hit.p);
        assert_eq!(scattered.tm(), down_ray().tm());
        assert_eq!(attenuation, albedo);
    }
}

#[test]
fn metal_mirror_scatters_upward() {
    let mat = raytracer::materials::Metal::new(Color::white(), 0);
    let hit = floor_hit(Materials::Metal(mat));
    let incoming = Ray::new(
        Vec3::new(0, 2 * FX_ONE, 0),
        Vec3::new(FX_HALF, -FX_HALF, 0),
        0,
    );
    let mut rng = Rng::new(11);
    let (scattered, attenuation) = mat.scatter(&incoming, &hit, &mut rng).unwrap();
    assert!(scattered.direction().y() > 0);
    assert_eq!(scattered.origin(), hit.p);
    assert_eq!(attenuation, Color::white());
}

#[test]
fn metal_absorbs_a_reflection_into_the_surface() {
    // a ray leaving the surface reflects to point into it: scatter fails
    let mat = raytracer::materials::Metal::new(Color::white(), 0);
    let hit = floor_hit(Materials::Metal(mat));
    let outgoing = Ray::new(Vec3::new(0, 0, 0), Vec3::new(0, FX_ONE, 0), 0);
    let mut rng = Rng::new(11);
    assert!(mat.scatter(&outgoing, &hit, &mut rng).is_none());
}

#[test]
fn dielectric_at_unit_index_goes_straight_through() {
    let mat = Dielectric::new(FX_ONE);
    let hit = floor_hit(Materials::Dielectric(mat));
    let mut rng = Rng::new(5);
    let (scattered, attenuation) = mat.scatter(&down_ray(), &hit, &mut rng).unwrap();
    assert_eq!(attenuation, Color::white());
    assert_eq!(scattered.origin(), hit.p);
    // head-on entry: the direction is carried through exactly
    assert_eq!(scattered.direction(), Vec3::new(0, -FX_ONE, 0));
}

#[test]
fn dielectric_always_scatters_white() {
    let mat = Dielectric::new(FX_ONE + FX_HALF);
    let hit = floor_hit(Materials::Dielectric(mat));
    for seed in 0..32u64 {
        let mut rng = Rng::new(seed);
        let (scattered, attenuation) = mat.scatter(&down_ray(), &hit, &mut rng).unwrap();
        assert_eq!(attenuation, Color::white());
        assert_eq!(scattered.tm(), down_ray().tm());
    }
}

#[test]
fn material_dispatch_matches_the_variants() {
    let lam = Materials::Lambertian(Lambertian::new(Color::white()));
    let hit = floor_hit(lam);
    let mut rng = Rng::new(9);
    let dispatched = lam.scatter(&down_ray(), &hit, &mut rng);
    let mut rng2 = Rng::new(9);
    let direct = Lambertian::new(Color::white()).scatter(&down_ray(), &hit, &mut rng2);
    assert_eq!(dispatched, direct);
}

#[test]
fn dielectric_total_internal_reflection() {
    // inside the glass (back face), grazing the surface: the ratio times
    // the sine exceeds one, so the ray must reflect, drawing no randomness
    let mat = Dielectric::new(FX_ONE + FX_HALF);
    let grazing = Ray::new(Vec3::new(0, 0, 0), Vec3::new(FX_ONE, -1000, 0), 0);
    let hit = Hit::new(
        &grazing,
        Vec3::new(FX_ONE, 0, 0),
        Vec3::new(0, -FX_ONE, 0),
        Materials::Dielectric(mat),
        FX_ONE,
    );
    assert!(!hit.front_face);
    assert_eq!(hit.normal, Vec3::new(0, FX_ONE, 0));
    let mut rng = Rng::new(21);
    let (scattered, attenuation) = mat.scatter(&grazing, &hit, &mut rng).unwrap();
    assert_eq!(rng, Rng::new(21));
    assert_eq!(attenuation, Color::white());
    assert!(scattered.direction().x() > 0);
    assert!(scattered.direction().y() > 0);
}
