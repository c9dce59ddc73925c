use raytracer::color::channel_byte;
use raytracer::color::Color;
use raytracer::fx::fx_abs;
use raytracer::fx::fx_add;
use raytracer::fx::fx_div;
use raytracer::fx::fx_from_usize;
use raytracer::fx::fx_mul;
use raytracer::fx::fx_neg;
use raytracer::fx::fx_sqrt;
use raytracer::fx::fx_sub;
use raytracer::fx::fx_to_usize;
use raytracer::fx::isqrt;
use raytracer::fx::FX_HALF;
use raytracer::fx::FX_MAX;
use raytracer::fx::FX_ONE;
use raytracer::vec3::Vec3;

#[test]
fn mul_of_whole_numbers_is_exact() {
    assert_eq!(fx_mul(3 * FX_ONE, 5 * FX_ONE), 15 * FX_ONE);
    assert_eq!(fx_mul(-3 * FX_ONE, 5 * FX_ONE), -15 * FX_ONE);
    assert_eq!(fx_mul(FX_HALF, FX_HALF), FX_ONE / 4);
    assert_eq!(fx_mul(FX_ONE, 12345), 12345);
    assert_eq!(fx_mul(0, FX_MAX), 0);
}

#[test]
fn mul_saturates_symmetrically() {
    assert_eq!(fx_mul(FX_MAX, FX_MAX), FX_MAX);
    assert_eq!(fx_mul(FX_MAX, -FX_MAX), -FX_MAX);
}

#[test]
fn div_of_whole_numbers_is_exact() {
    assert_eq!(fx_div(15 * FX_ONE, 5 * FX_ONE), 3 * FX_ONE);
    assert_eq!(fx_div(FX_ONE, 2 * FX_ONE), FX_HALF);
    assert_eq!(fx_div(-15 * FX_ONE, 5 * FX_ONE), -3 * FX_ONE);
    assert_eq!(fx_div(15 * FX_ONE, -5 * FX_ONE), -3 * FX_ONE);
}

#[test]
fn division_truncates_toward_zero() {
    // -1/3 and 1/3 have the same digits with opposite signs.
    assert_eq!(fx_div(-FX_ONE, 3 * FX_ONE), -fx_div(FX_ONE, 3 * FX_ONE));
}

#[test]
fn add_sub_neg_abs() {
    assert_eq!(fx_add(FX_ONE, FX_ONE), 2 * FX_ONE);
    assert_eq!(fx_sub(FX_ONE, 3 * FX_ONE), -2 * FX_ONE);
    assert_eq!(fx_add(FX_MAX, FX_MAX), FX_MAX);
    assert_eq!(fx_sub(-FX_MAX, FX_MAX), -FX_MAX);
    assert_eq!(fx_neg(5 * FX_ONE), -5 * FX_ONE);
    assert_eq!(fx_neg(i64::MIN), FX_MAX);
    assert_eq!(fx_abs(-7 * FX_ONE), 7 * FX_ONE);
    assert_eq!(fx_abs(i64::MIN), FX_MAX);
}

#[test]
fn sqrt_of_perfect_squares_is_exact() {
    assert_eq!(fx_sqrt(0), 0);
    assert_eq!(fx_sqrt(FX_ONE), FX_ONE);
    assert_eq!(fx_sqrt(4 * FX_ONE), 2 * FX_ONE);
    assert_eq!(fx_sqrt(9 * FX_ONE), 3 * FX_ONE);
    assert_eq!(fx_sqrt(FX_ONE / 4), FX_HALF);
}

#[test]
fn sqrt_rounds_down() {
    let r = fx_sqrt(2 * FX_ONE);
    // sqrt(2) = 1.41421356...; one representation step is about 2.3e-10.
    let expected = 6074001000i64; // floor(sqrt(2) * 2^32)
    assert!((r - expected).abs() <= 1);
    assert!(fx_mul(r, r) <= 2 * FX_ONE);
}

#[test]
fn isqrt_characterization() {
    for n in [0u128, 1, 2, 3, 4, 15, 16, 17, 1 << 40, u64::MAX as u128] {
        let r = isqrt(n) as u128;
        assert!(r * r <= n);
        assert!((r + 1) * (r + 1) > n);
    }
}

#[test]
fn usize_conversions_round_trip() {
    assert_eq!(fx_from_usize(7), 7 * FX_ONE);
    assert_eq!(fx_to_usize(7 * FX_ONE), 7);
    assert_eq!(fx_to_usize(7 * FX_ONE + FX_HALF), 7);
    assert_eq!(fx_to_usize(-FX_ONE), 0);
}

#[test]
fn channel_bytes_follow_the_formula() {
    // byte = floor(255.999 * channel)
    assert_eq!(channel_byte(0), 0);
    assert_eq!(channel_byte(FX_ONE), 255);
    assert_eq!(channel_byte(FX_HALF), 127);
    assert_eq!(channel_byte(FX_ONE / 4), 63);
}

#[test]
fn color_constructors_enforce_the_range() {
    let ok = Color::maybe_new(Vec3::new(0, FX_HALF, FX_ONE));
    assert!(ok.is_some());
    let c = ok.unwrap();
    assert_eq!(c.red(), 0);
    assert_eq!(c.green(), FX_HALF);
    assert_eq!(c.blue(), FX_ONE);
    assert_eq!(c.to_bytes(), (0, 127, 255));
    assert!(Color::maybe_new(Vec3::new(-1, 0, 0)).is_none());
    assert!(Color::maybe_new(Vec3::new(0, FX_ONE + 1, 0)).is_none());
    assert!(Color::maybe_new(Vec3::new(0, 0, i64::MIN)).is_none());
}

#[test]
fn color_arithmetic_stays_channelwise() {
    let a = Color::from_channels(FX_HALF, FX_ONE / 4, 0);
    let b = Color::from_channels(FX_HALF, FX_ONE / 4, FX_ONE);
    assert_eq!(a.add(b), Color::from_channels(FX_ONE, FX_HALF, FX_ONE));
    assert_eq!(b.sub(a), Color::from_channels(0, 0, FX_ONE));
    assert_eq!(a.mul(b), Color::from_channels(FX_ONE / 4, FX_ONE / 16, 0));
}

#[test]
fn mutable_channel_access() {
    let mut v = Vec3::new(1, 2, 3);
    *v.x_mut() = 10;
    *v.y_mut() += 1;
    *v.z_mut() = -3;
    assert_eq!(v, Vec3::new(10, 3, -3));
    let mut c = Color::from_channels(0, 0, 0);
    *c.red_mut() = FX_ONE;
    *c.green_mut() = FX_HALF;
    *c.blue_mut() = FX_ONE / 4;
    assert_eq!(c, Color::from_channels(FX_ONE, FX_HALF, FX_ONE / 4));
}

#[test]
fn white_is_all_ones() {
    let w = Color::white();
    assert_eq!(w.vec3(), Vec3::new(FX_ONE, FX_ONE, FX_ONE));
    assert_eq!(w.to_bytes(), (255, 255, 255));
}

#[test]
fn primary_colors_light_one_channel() {
    assert_eq!(Color::pure_red().to_bytes(), (255, 0, 0));
    assert_eq!(Color::pure_green().to_bytes(), (0, 255, 0));
    assert_eq!(Color::pure_blue().to_bytes(), (0, 0, 255));
}
