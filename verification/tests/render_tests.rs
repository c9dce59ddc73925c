use raytracer::camera::background;
use raytracer::camera::ray_color;
use raytracer::camera::render_pixel;
use raytracer::camera::render_row;
use raytracer::camera::Camera;
use raytracer::camera::CameraInfo;
use raytracer::camera::MAX_DEPTH;
use raytracer::color::Color;
use raytracer::fx::FX_HALF;
use raytracer::fx::FX_ONE;
use raytracer::materials::Lambertian;
use raytracer::materials::Materials;
use raytracer::ppm::ppm_bytes;
use raytracer::ppm::push_decimal;
use raytracer::ray::Ray;
use raytracer::rng::random_unit_vector;
use raytracer::rng::Rng;
use raytracer::shapes::Shape;
use raytracer::shapes::Sphere;
use raytracer::vec3::Vec3;
use raytracer::world::World;

fn gray() -> Materials {
    Materials::Lambertian(Lambertian::new(Color::from_channels(FX_HALF, FX_HALF, FX_HALF)))
}

/// The scene of the end-to-end scenario: a small sphere ahead of the
/// camera and a large ground sphere below it.
fn two_sphere_scene() -> World {
    let mut w = World::new();
    w.add_shape(Shape::from(Sphere::new(
        Vec3::new(0, 0, -FX_ONE),
        FX_HALF,
        gray(),
    )));
    w.add_shape(Shape::from(Sphere::new(
        Vec3::new(0, -100 * FX_ONE - FX_HALF, -FX_ONE),
        100 * FX_ONE,
        gray(),
    )));
    w
}

#[test]
fn ray_color_at_depth_zero_is_black() {
    let w = two_sphere_scene();
    let r = Ray::new(Vec3::new(0, 0, 0), Vec3::new(0, 0, -FX_ONE), 0);
    let mut rng = Rng::new(1);
    assert_eq!(ray_color(r, 0, &w, &mut rng), Vec3::new(0, 0, 0));
    // and the random stream is untouched
    assert_eq!(rng, Rng::new(1));
}

#[test]
fn ray_color_on_empty_scene_hits_the_gradient_endpoints() {
    let w = World::new();
    let up = Ray::new(Vec3::new(0, 0, 0), Vec3::new(0, FX_ONE, 0), 0);
    let down = Ray::new(Vec3::new(0, 0, 0), Vec3::new(0, -FX_ONE, 0), 0);
    let mut rng = Rng::new(1);
    let sky = ray_color(up, MAX_DEPTH, &w, &mut rng);
    assert_eq!(sky, Vec3::new(FX_HALF, 3006477107, FX_ONE));
    let ground = ray_color(down, MAX_DEPTH, &w, &mut rng);
    assert_eq!(ground, Vec3::new(FX_ONE, FX_ONE, FX_ONE));
}

#[test]
fn background_blends_between_white_and_sky() {
    // horizontal ray: the blend factor is one half
    let level = Ray::new(Vec3::new(0, 0, 0), Vec3::new(FX_ONE, 0, 0), 0);
    let c = background(&level);
    // (1 - 1/2) * 1 + 1/2 * 1/2 = 3/4 on the red channel
    assert_eq!(c.x(), 3 * (FX_ONE / 4));
    assert_eq!(c.z(), FX_ONE);
}

#[test]
fn random_unit_vectors_are_nearly_unit() {
    // short accepted draws can lose a few more representation steps in
    // normalization; 64 steps is still within 1.5e-8 of unit length
    let mut rng = Rng::new(42);
    for _ in 0..64 {
        let v = random_unit_vector(&mut rng);
        assert!((v.length() - FX_ONE).abs() <= 64);
    }
}

#[test]
fn render_is_deterministic_for_a_fixed_seed() {
    let w = two_sphere_scene();
    let cam = Camera::default()
        .set_image_height(1)
        .set_image_width(2)
        .set_samples_per_pixel(2);
    let first = cam.render(&w, 77);
    let second = cam.render(&w, 77);
    assert_eq!(first, second);
}

#[test]
fn render_matches_the_per_pixel_trace() {
    // end-to-end: a 2 x 1 render equals the serialization of the pixels
    // computed one by one through the public pieces
    let w = two_sphere_scene();
    let cam = Camera::default()
        .set_image_height(1)
        .set_image_width(2)
        .set_samples_per_pixel(1);
    let seed = 9u64;
    let out = cam.render(&w, seed);
    let p0 = render_pixel(&w, &cam.viewport, 0, 0, 1, seed);
    let p1 = render_pixel(&w, &cam.viewport, 1, 0, 1, seed);
    let rows = vec![vec![p0, p1]];
    let expected = ppm_bytes(2, 1, &rows);
    assert_eq!(out, expected);
    // and each pixel is the average of its single traced sample
    let mut rng = Rng::for_pixel(seed, 0, 0);
    let ray = cam.viewport.get_sample_ray(0, 0, &mut rng);
    let traced = ray_color(ray, MAX_DEPTH, &w, &mut rng);
    assert_eq!(p0.vec3(), traced.scale(FX_ONE));
    // a sample ray that misses everything shows the background gradient
    if w.hit(&ray).is_none() {
        assert_eq!(traced, background(&ray));
    }
}

#[test]
fn entropy_render_is_a_well_formed_stream() {
    let w = two_sphere_scene();
    let cam = Camera::default()
        .set_image_height(1)
        .set_image_width(1)
        .set_samples_per_pixel(1);
    let out = cam.render_with_entropy(&w);
    let text = String::from_utf8(out).unwrap();
    assert!(text.starts_with("P3\n1 1\n255\n"));
}

#[test]
fn render_row_has_one_pixel_per_column() {
    let w = two_sphere_scene();
    let cam = Camera::default()
        .set_image_height(2)
        .set_image_width(3)
        .set_samples_per_pixel(1);
    let row = render_row(&w, &cam.viewport, 0, 1, 5);
    assert_eq!(row.len(), 3);
}

#[test]
fn ppm_stream_is_well_formed_and_in_range() {
    let w = two_sphere_scene();
    let cam = Camera::default()
        .set_image_height(2)
        .set_image_width(2)
        .set_samples_per_pixel(2);
    let out = cam.render(&w, 3);
    let text = String::from_utf8(out).unwrap();
    let mut lines = text.lines();
    assert_eq!(lines.next(), Some("P3"));
    assert_eq!(lines.next(), Some("2 2"));
    assert_eq!(lines.next(), Some("255"));
    let mut pixels = 0;
    for line in lines {
        let values: Vec<u32> = line
            .split_whitespace()
            .map(|v| v.parse().unwrap())
            .collect();
        assert_eq!(values.len(), 3);
        for v in values {
            assert!(v <= 255);
        }
        pixels += 1;
    }
    assert_eq!(pixels, 4);
}

#[test]
fn decimal_digits_are_rendered_most_significant_first() {
    let mut out = Vec::new();
    push_decimal(&mut out, 0);
    push_decimal(&mut out, 7);
    push_decimal(&mut out, 255);
    push_decimal(&mut out, 1000);
    assert_eq!(out, b"072551000".to_vec());
}

#[test]
fn camera_default_geometry() {
    let cam = CameraInfo::default();
    assert_eq!(cam.window_height(), 225);
    assert_eq!(cam.window_width(), 400);
    assert_eq!(cam.camera_center(), Vec3::new(0, 0, 0));
    // vfov 90 degrees at focus distance 10: viewport height close to 20
    let vh = cam.viewport_height();
    assert!((vh - 20 * FX_ONE).abs() < FX_ONE / 1000);
}

#[test]
fn camera_setters_recompute_geometry() {
    let cam = Camera::default().set_focus_dist(20 * FX_ONE);
    let vh = cam.viewport.viewport_height();
    assert!((vh - 40 * FX_ONE).abs() < FX_ONE / 500);
    let wider = Camera::default().set_image_width(800);
    assert_eq!(wider.viewport.window_width(), 800);
    // aspect-ratio setter: 16:9 from a height of 90 gives a width of 160
    let ratio = Camera::default().set_image_height_with_aspect_ratio(90, 16 * FX_ONE / 9);
    assert_eq!(ratio.viewport.window_height(), 90);
    assert_eq!(ratio.viewport.window_width(), 160);
    // and from a height of 720 a width of 1280
    let hd = Camera::default().set_image_height_with_aspect_ratio(720, 16 * FX_ONE / 9);
    assert_eq!(hd.viewport.window_width(), 1280);
    // the symmetric setter derives the height the same way
    let tall = Camera::default().set_image_width_with_aspect_ratio(1280, 16 * FX_ONE / 9);
    assert_eq!(tall.viewport.window_height(), 720);
}

#[test]
fn sample_rays_are_reproducible_per_pixel() {
    let cam = CameraInfo::default();
    let mut a = Rng::for_pixel(5, 3, 4);
    let mut b = Rng::for_pixel(5, 3, 4);
    let ra = cam.get_sample_ray(3, 4, &mut a);
    let rb = cam.get_sample_ray(3, 4, &mut b);
    assert_eq!(ra, rb);
    let mut c = Rng::for_pixel(5, 4, 4);
    let rc = cam.get_sample_ray(4, 4, &mut c);
    assert!(rc != ra);
}

#[test]
fn camera_area_counts_pixels() {
    let cam = Camera::default();
    assert_eq!(cam.area(), 400 * 225);
}
