use raytracer::color::Color;
use raytracer::fx::FX_HALF;
use raytracer::fx::FX_ONE;
use raytracer::materials::Lambertian;
use raytracer::materials::Materials;
use raytracer::ray::Ray;
use raytracer::shapes::Shape;
use raytracer::shapes::Sphere;
use raytracer::vec3::Vec3;
use raytracer::world::World;

fn gray() -> Materials {
    Materials::Lambertian(Lambertian::new(Color::from_channels(FX_HALF, FX_HALF, FX_HALF)))
}

fn toward_neg_z() -> Ray {
    Ray::new(Vec3::new(0, 0, 0), Vec3::new(0, 0, -FX_ONE), 0)
}

#[test]
fn head_on_hit_at_distance_minus_radius() {
    // center three units away, radius one: the near root is exactly 2
    let s = Sphere::new(Vec3::new(0, 0, -3 * FX_ONE), FX_ONE, gray());
    let hit = s.hit(&toward_neg_z()).unwrap();
    assert_eq!(hit.t, 2 * FX_ONE);
    assert_eq!(hit.p, Vec3::new(0, 0, -2 * FX_ONE));
    assert!(hit.front_face);
    assert_eq!(hit.normal, Vec3::new(0, 0, FX_ONE));
}

#[test]
fn translation_leaves_the_hit_parameter_unchanged() {
    let center = Vec3::new(7 * FX_ONE, -2 * FX_ONE, -9 * FX_ONE);
    let origin = Vec3::new(FX_ONE, FX_ONE, FX_ONE);
    let dir = Vec3::new(FX_HALF, -FX_HALF, -FX_ONE);
    let s = Sphere::new(center, 3 * FX_ONE, gray());
    let r = Ray::new(origin, dir, 0);
    let s0 = Sphere::new(Vec3::new(0, 0, 0), 3 * FX_ONE, gray());
    let r0 = Ray::new(origin.sub(center), dir, 0);
    let a = s.hit(&r);
    let b = s0.hit(&r0);
    assert!(a.is_some());
    assert_eq!(a.is_some(), b.is_some());
    if let (Some(ha), Some(hb)) = (a, b) {
        assert_eq!(ha.t, hb.t);
    }
}

#[test]
fn ray_misses_a_sphere_off_axis() {
    let s = Sphere::new(Vec3::new(10 * FX_ONE, 0, -3 * FX_ONE), FX_ONE, gray());
    assert!(s.hit(&toward_neg_z()).is_none());
    // and a sphere behind the ray origin is not hit either
    let behind = Sphere::new(Vec3::new(0, 0, 3 * FX_ONE), FX_ONE, gray());
    assert!(behind.hit(&toward_neg_z()).is_none());
}

#[test]
fn ray_inside_a_sphere_uses_the_far_root() {
    // origin at the center: near root is negative, far root is the radius
    let s = Sphere::new(Vec3::new(0, 0, 0), 2 * FX_ONE, gray());
    let hit = s.hit(&toward_neg_z()).unwrap();
    assert_eq!(hit.t, 2 * FX_ONE);
    assert!(!hit.front_face);
}

#[test]
fn moving_sphere_center_interpolates() {
    let s = Sphere::new_moving(
        Vec3::new(0, 0, 0),
        Vec3::new(2 * FX_ONE, 0, 0),
        FX_ONE,
        gray(),
    );
    assert_eq!(s.center(0), Vec3::new(0, 0, 0));
    assert_eq!(s.center(FX_HALF), Vec3::new(FX_ONE, 0, 0));
    assert_eq!(s.center(FX_ONE), Vec3::new(2 * FX_ONE, 0, 0));
}

#[test]
fn world_reports_the_nearest_hit() {
    let mut w = World::new();
    w.add_shape(Shape::from(Sphere::new(Vec3::new(0, 0, -8 * FX_ONE), FX_ONE, gray())));
    w.add_shape(Shape::from(Sphere::new(Vec3::new(0, 0, -4 * FX_ONE), FX_ONE, gray())));
    let hit = w.hit(&toward_neg_z()).unwrap();
    assert_eq!(hit.t, 3 * FX_ONE);
}

#[test]
fn world_breaks_ties_by_insertion_order() {
    let red = Materials::Lambertian(Lambertian::new(Color::from_channels(FX_ONE, 0, 0)));
    let blue = Materials::Lambertian(Lambertian::new(Color::from_channels(0, 0, FX_ONE)));
    let mut w = World::new();
    w.add_shape(Shape::from(Sphere::new(Vec3::new(0, 0, -4 * FX_ONE), FX_ONE, red)));
    w.add_shape(Shape::from(Sphere::new(Vec3::new(0, 0, -4 * FX_ONE), FX_ONE, blue)));
    let hit = w.hit(&toward_neg_z()).unwrap();
    assert_eq!(hit.mat, red);
}

#[test]
fn empty_world_hits_nothing() {
    let w = World::new();
    assert!(w.hit(&toward_neg_z()).is_none());
    let d = World::default();
    assert!(d.hit(&toward_neg_z()).is_none());
}

#[test]
fn add_shapes_extends_in_order() {
    let mut w = World::new();
    let a = Shape::from(Sphere::new(Vec3::new(0, 0, -8 * FX_ONE), FX_ONE, gray()));
    let b = Shape::from(Sphere::new(Vec3::new(0, 0, -4 * FX_ONE), FX_ONE, gray()));
    w.add_shapes(vec![a, b]);
    let hit = w.hit(&toward_neg_z()).unwrap();
    assert_eq!(hit.t, 3 * FX_ONE);
}
