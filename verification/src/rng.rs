//! A deterministic pseudo-random stream.
//!
//! Rendering draws its jitter, lens and scatter randomness from this
//! counter-based generator.  Each pixel derives its own stream from a render
//! seed and its coordinates, so a render is a pure function of scene, camera
//! and seed: the same seed reproduces the same image bit for bit, while
//! different pixels and samples still get independent-looking draws.

use vstd::prelude::*;

use crate::fx::FX_ONE;
use crate::vec3::Vec3;

verus! {

/// 64-bit sum, modulo 2^64.
pub open spec fn wrap_add(a: u64, b: u64) -> u64 {
    ((a + b) % 0x10000000000000000) as u64
}

/// 64-bit product, modulo 2^64.
pub open spec fn wrap_mul(a: u64, b: u64) -> u64 {
    ((a * b) % 0x10000000000000000) as u64
}

/// The finalizing scramble: xor-shifts and odd multiplies, so that nearby
/// inputs give unrelated outputs.
pub open spec fn mix64(z: u64) -> u64 {
    let z1 = wrap_mul(z ^ (z >> 30u64), 0xbf58476d1ce4e5b9);
    let z2 = wrap_mul(z1 ^ (z1 >> 27u64), 0x94d049bb133111eb);
    z2 ^ (z2 >> 31u64)
}

/// The state after one draw: the state advances by an odd constant
/// (a Weyl sequence), which visits every 64-bit value before repeating.
pub open spec fn rng_next_state(s: u64) -> u64 {
    wrap_add(s, 0x9e3779b97f4a7c15)
}

/// The value one draw yields from state s.
pub open spec fn rng_output(s: u64) -> u64 {
    mix64(rng_next_state(s))
}

/// A pseudo-random stream; the whole stream is a function of the seed.
#[derive(Clone, Copy, PartialEq, Eq, Structural, Debug)]
pub struct Rng {
    pub state: u64,
}

/// Exec counterpart of `wrap_add`.
fn wrap_add_exec(a: u64, b: u64) -> (r: u64)
    ensures
        r == wrap_add(a, b),
{
    let s: u128 = a as u128 + b as u128;
    (s % 0x10000000000000000u128) as u64
}

/// Exec counterpart of `wrap_mul`.
fn wrap_mul_exec(a: u64, b: u64) -> (r: u64)
    ensures
        r == wrap_mul(a, b),
{
    proof {
        assert((a as int) * (b as int) <= 0xffffffffffffffff * 0xffffffffffffffff)
            by (nonlinear_arith)
            requires
                0 <= a <= 0xffffffffffffffff,
                0 <= b <= 0xffffffffffffffff,
        ;
    }
    let p: u128 = (a as u128) * (b as u128);
    (p % 0x10000000000000000u128) as u64
}

impl Rng {
    pub fn new(seed: u64) -> (r: Rng)
        ensures
            r.state == seed,
    {
        Rng { state: seed }
    }

    /// Derive the stream for one pixel of one render: scramble the seed with
    /// the pixel's coordinates so that distinct pixels get distinct streams.
    pub fn for_pixel(seed: u64, px: u64, py: u64) -> (r: Rng)
        ensures
            r.state == pixel_seed(seed, px, py),
    {
        let a = mix64_exec(wrap_add_exec(seed, wrap_mul_exec(py, 0x100000001)));
        Rng { state: mix64_exec(wrap_add_exec(a, px)) }
    }

    /// Draw one 64-bit value and advance the state.
    pub fn next_u64(&mut self) -> (r: u64)
        ensures
            final(self).state == rng_next_state(old(self).state),
            r == rng_output(old(self).state),
    {
        let s = wrap_add_exec(self.state, 0x9e3779b97f4a7c15);
        self.state = s;
        mix64_exec(s)
    }

    /// Draw a fixed-point scalar in [0, 1).
    pub fn next_unit(&mut self) -> (r: i64)
        ensures
            final(self).state == rng_next_state(old(self).state),
            r == unit_from(rng_output(old(self).state)),
            0 <= r < FX_ONE,
    {
        let v = self.next_u64();
        (v % 0x100000000u64) as i64
    }

    /// Draw a fixed-point scalar in [-1, 1).
    pub fn next_symmetric(&mut self) -> (r: i64)
        ensures
            final(self).state == rng_next_state(old(self).state),
            r == symmetric_from(rng_output(old(self).state)),
            -FX_ONE <= r < FX_ONE,
    {
        let v = self.next_u64();
        (v % 0x200000000u64) as i64 - FX_ONE
    }
}

/// The stream state a pixel starts from.
pub open spec fn pixel_seed(seed: u64, px: u64, py: u64) -> u64 {
    mix64(wrap_add(mix64(wrap_add(seed, wrap_mul(py, 0x100000001))), px))
}

/// The unit-interval scalar one draw yields: the low 32 bits as a fraction.
pub open spec fn unit_from(v: u64) -> i64 {
    (v % 0x100000000) as i64
}

/// The symmetric scalar one draw yields: 33 bits shifted down to [-1, 1).
pub open spec fn symmetric_from(v: u64) -> i64 {
    ((v % 0x200000000) - FX_ONE) as i64
}

/// Rejection attempts before a sampler falls back to a fixed direction.
pub const SAMPLE_ATTEMPTS: u32 = 16;

/// Smallest squared length a draw may have before normalizing (about 0.01);
/// anything shorter is rejected as numerically degenerate.
pub const FX_SAMPLE_MIN: i64 = 42949672;

/// The unit-sphere sampler, unrolled: draw a vector in the cube [-1, 1)^3,
/// accept and normalize it if its length is comfortably within the unit
/// ball, and otherwise retry; after the last attempt fall back to +z.
pub open spec fn random_unit_spec(s: u64, attempts: nat) -> (Vec3, u64)
    decreases attempts,
{
    if attempts == 0 {
        (Vec3 { x: 0i64, y: 0i64, z: FX_ONE as i64 }, s)
    } else {
        let x = symmetric_from(rng_output(s));
        let s1 = rng_next_state(s);
        let y = symmetric_from(rng_output(s1));
        let s2 = rng_next_state(s1);
        let z = symmetric_from(rng_output(s2));
        let s3 = rng_next_state(s2);
        let v = Vec3 { x, y, z };
        let lsq = v.length_squared_spec();
        if FX_SAMPLE_MIN < lsq && lsq <= FX_ONE {
            (v.unit_spec(), s3)
        } else {
            random_unit_spec(s3, (attempts - 1) as nat)
        }
    }
}

/// The unit-disk sampler, unrolled: draw a point of the square [-1, 1)^2,
/// keep it if it lies in the unit disk, retry otherwise; after the last
/// attempt fall back to the center.
pub open spec fn random_in_disk_spec(s: u64, attempts: nat) -> (Vec3, u64)
    decreases attempts,
{
    if attempts == 0 {
        (Vec3 { x: 0i64, y: 0i64, z: 0i64 }, s)
    } else {
        let x = symmetric_from(rng_output(s));
        let s1 = rng_next_state(s);
        let y = symmetric_from(rng_output(s1));
        let s2 = rng_next_state(s1);
        let v = Vec3 { x, y, z: 0i64 };
        if v.length_squared_spec() <= FX_ONE {
            (v, s2)
        } else {
            random_in_disk_spec(s2, (attempts - 1) as nat)
        }
    }
}

/// A squared length of at least FX_SAMPLE_MIN gives a positive length.
proof fn lemma_positive_length(v: Vec3)
    requires
        v.length_squared_spec() >= 1,
    ensures
        v.length_spec() > 0,
{
    let n = (v.length_squared_spec() * FX_ONE) as nat;
    assert(v.length_squared_spec() * FX_ONE >= FX_ONE) by (nonlinear_arith)
        requires
            v.length_squared_spec() >= 1,
    ;
    crate::fx::lemma_sqrt_floor(n);
    if crate::fx::sqrt_floor(n) == 0 {
        assert((crate::fx::sqrt_floor(n) + 1) * (crate::fx::sqrt_floor(n) + 1) == 1)
            by (nonlinear_arith)
            requires
                crate::fx::sqrt_floor(n) == 0,
        ;
        assert(n < 1);
    }
    assert(n < 0x1000000000000000000000000);
    assert(crate::fx::sqrt_floor(n) < 0x1000000000000) by (nonlinear_arith)
        requires
            crate::fx::sqrt_floor(n) * crate::fx::sqrt_floor(n) <= n,
            n < 0x1000000000000000000000000,
    ;
}

fn random_unit_from(rng: &mut Rng, attempts: u32) -> (r: Vec3)
    ensures
        (r, final(rng).state) == random_unit_spec(old(rng).state, attempts as nat),
    decreases attempts,
{
    if attempts == 0 {
        Vec3 { x: 0, y: 0, z: FX_ONE }
    } else {
        let x = rng.next_symmetric();
        let y = rng.next_symmetric();
        let z = rng.next_symmetric();
        let v = Vec3 { x, y, z };
        let lsq = v.length_squared();
        if FX_SAMPLE_MIN < lsq && lsq <= FX_ONE {
            proof {
                lemma_positive_length(v);
            }
            v.unit_vector()
        } else {
            random_unit_from(rng, attempts - 1)
        }
    }
}

/// A pseudo-random vector of length (nearly) one, uniform over the sphere.
pub fn random_unit_vector(rng: &mut Rng) -> (r: Vec3)
    ensures
        (r, final(rng).state) == random_unit_spec(old(rng).state, SAMPLE_ATTEMPTS as nat),
{
    random_unit_from(rng, SAMPLE_ATTEMPTS)
}

fn random_in_disk_from(rng: &mut Rng, attempts: u32) -> (r: Vec3)
    ensures
        (r, final(rng).state) == random_in_disk_spec(old(rng).state, attempts as nat),
    decreases attempts,
{
    if attempts == 0 {
        Vec3 { x: 0, y: 0, z: 0 }
    } else {
        let x = rng.next_symmetric();
        let y = rng.next_symmetric();
        let v = Vec3 { x, y, z: 0 };
        let lsq = v.length_squared();
        if lsq <= FX_ONE {
            v
        } else {
            random_in_disk_from(rng, attempts - 1)
        }
    }
}

/// A pseudo-random point of the unit disk in the xy-plane.
pub fn random_unit_in_disk(rng: &mut Rng) -> (r: Vec3)
    ensures
        (r, final(rng).state) == random_in_disk_spec(old(rng).state, SAMPLE_ATTEMPTS as nat),
{
    random_in_disk_from(rng, SAMPLE_ATTEMPTS)
}

/// Exec counterpart of `mix64`.
fn mix64_exec(z: u64) -> (r: u64)
    ensures
        r == mix64(z),
{
    let z1 = wrap_mul_exec(z ^ (z >> 30), 0xbf58476d1ce4e5b9);
    let z2 = wrap_mul_exec(z1 ^ (z1 >> 27), 0x94d049bb133111eb);
    z2 ^ (z2 >> 31)
}

} // verus!
