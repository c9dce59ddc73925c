use raytracer::fx::FX_HALF;
use raytracer::fx::FX_ONE;
use raytracer::ray::Ray;
use raytracer::vec3::Vec3;

#[test]
fn componentwise_arithmetic() {
    let a = Vec3::new(FX_ONE, 2 * FX_ONE, 3 * FX_ONE);
    let b = Vec3::new(4 * FX_ONE, 5 * FX_ONE, 6 * FX_ONE);
    assert_eq!(a.add(b), Vec3::new(5 * FX_ONE, 7 * FX_ONE, 9 * FX_ONE));
    assert_eq!(b.sub(a), Vec3::new(3 * FX_ONE, 3 * FX_ONE, 3 * FX_ONE));
    assert_eq!(a.neg(), Vec3::new(-FX_ONE, -2 * FX_ONE, -3 * FX_ONE));
    assert_eq!(a.scale(2 * FX_ONE), Vec3::new(2 * FX_ONE, 4 * FX_ONE, 6 * FX_ONE));
    assert_eq!(a.mul(b), Vec3::new(4 * FX_ONE, 10 * FX_ONE, 18 * FX_ONE));
}

#[test]
fn dot_and_cross_products() {
    let a = Vec3::new(FX_ONE, 2 * FX_ONE, 3 * FX_ONE);
    let b = Vec3::new(4 * FX_ONE, 5 * FX_ONE, 6 * FX_ONE);
    assert_eq!(a.dot(&b), 32 * FX_ONE);
    // right-handed cross product: x cross y = z
    let x = Vec3::new(FX_ONE, 0, 0);
    let y = Vec3::new(0, FX_ONE, 0);
    assert_eq!(x.cross(&y), Vec3::new(0, 0, FX_ONE));
    assert_eq!(y.cross(&x), Vec3::new(0, 0, -FX_ONE));
    assert_eq!(a.cross(&b), Vec3::new(-3 * FX_ONE, 6 * FX_ONE, -3 * FX_ONE));
}

#[test]
fn lengths_of_integer_triangles() {
    let v = Vec3::new(3 * FX_ONE, 4 * FX_ONE, 0);
    assert_eq!(v.length_squared(), 25 * FX_ONE);
    assert_eq!(v.length(), 5 * FX_ONE);
}

#[test]
fn unit_vector_of_axis_vectors_has_length_exactly_one() {
    // the unit-length property, exact for whole-unit axis inputs
    for k in [1i64, 2, 7, 1000, 40000] {
        for v in [
            Vec3::new(k * FX_ONE, 0, 0),
            Vec3::new(0, -k * FX_ONE, 0),
            Vec3::new(0, 0, k * FX_ONE),
        ] {
            let u = v.unit_vector();
            assert_eq!(u.length(), FX_ONE);
        }
    }
}

#[test]
fn unit_vector_of_general_vectors_is_close_to_length_one() {
    // for vectors of length at least one the normalized length is within
    // four representation steps below one and two above (one step is
    // about 2.3e-10, so the error stays under 1e-9)
    for v in [
        Vec3::new(3 * FX_ONE, 4 * FX_ONE, 5 * FX_ONE),
        Vec3::new(FX_ONE, FX_ONE, FX_ONE),
        Vec3::new(-FX_ONE, FX_HALF, 12345678901),
        Vec3::new(16000 * FX_ONE, -9999 * FX_ONE, FX_ONE / 3),
    ] {
        let d = v.unit_vector().length() - FX_ONE;
        assert!(-4 <= d && d <= 2);
    }
}

#[test]
fn axis_units_and_zero() {
    assert_eq!(Vec3::zero(), Vec3::new(0, 0, 0));
    assert_eq!(Vec3::unit_x(), Vec3::new(FX_ONE, 0, 0));
    assert_eq!(Vec3::unit_y(), Vec3::new(0, FX_ONE, 0));
    assert_eq!(Vec3::unit_z(), Vec3::new(0, 0, FX_ONE));
    assert_eq!(Vec3::unit_x().cross(&Vec3::unit_y()), Vec3::unit_z());
    assert_eq!(Vec3::unit_x().length(), FX_ONE);
}

#[test]
fn near_zero_band() {
    assert!(Vec3::new(0, 0, 0).near_zero());
    assert!(Vec3::new(428, -428, 1).near_zero());
    assert!(!Vec3::new(429, 0, 0).near_zero());
    assert!(!Vec3::new(0, FX_ONE, 0).near_zero());
}

#[test]
fn reflect_flips_the_normal_component() {
    let v = Vec3::new(FX_ONE, -2 * FX_ONE, 3 * FX_ONE);
    let n = Vec3::new(0, FX_ONE, 0);
    assert_eq!(v.reflect(&n), Vec3::new(FX_ONE, 2 * FX_ONE, 3 * FX_ONE));
}

#[test]
fn refract_straight_through_at_unit_ratio() {
    // a refraction-index ratio of one does not bend the ray
    let n = Vec3::new(0, FX_ONE, 0);
    let uv = Vec3::new(0, -FX_ONE, 0);
    assert_eq!(uv.refract(&n, FX_ONE), uv);
    // oblique entry: equal up to a few representation steps per component
    let oblique = Vec3::new(FX_HALF, -FX_HALF, 0).unit_vector();
    let out = oblique.refract(&n, FX_ONE);
    assert!((out.x() - oblique.x()).abs() <= 4);
    assert!((out.y() - oblique.y()).abs() <= 4);
    assert!((out.z() - oblique.z()).abs() <= 4);
}

#[test]
fn ray_point_at_parameter() {
    let r = Ray::new(
        Vec3::new(FX_ONE, 0, 0),
        Vec3::new(0, 0, -FX_ONE),
        FX_HALF,
    );
    assert_eq!(r.origin(), Vec3::new(FX_ONE, 0, 0));
    assert_eq!(r.direction(), Vec3::new(0, 0, -FX_ONE));
    assert_eq!(r.tm(), FX_HALF);
    assert_eq!(r.at(3 * FX_ONE), Vec3::new(FX_ONE, 0, -3 * FX_ONE));
}
