//! Reflective scattering with a roughness ("fuzz") radius.

use vstd::prelude::*;

use crate::color::Color;
use crate::fx::FX_ONE;
use crate::hittable::Hit;
use crate::ray::Ray;
use crate::rng::random_in_disk_spec;
use crate::rng::random_unit_in_disk;
use crate::rng::Rng;
use crate::rng::SAMPLE_ATTEMPTS;
use crate::vec3::Vec3;

verus! {

/// A mirror-like material; fuzz 0 is a perfect mirror, fuzz 1 maximally
/// rough.
#[derive(Clone, Copy, PartialEq, Eq, Structural, Debug)]
pub struct Metal {
    pub color: Color,
    pub fuzz: i64,
}

impl Metal {
    pub open spec fn wf(self) -> bool {
        self.color.valid() && 0 <= self.fuzz <= FX_ONE
    }

    /// The perturbed reflection direction: the incoming direction mirrored
    /// about the normal, normalized (the normal stands in for a degenerate
    /// reflection), plus fuzz times a random point of the unit disk.
    pub open spec fn scatter_direction_spec(self, r: Ray, hit: Hit, s: u64) -> Vec3 {
        let reflected = r.dir.reflect_spec(hit.normal);
        let unit = if reflected.length_spec() > 0 {
            reflected.unit_spec()
        } else {
            hit.normal
        };
        let drawn = random_in_disk_spec(s, SAMPLE_ATTEMPTS as nat);
        unit.add_spec(drawn.0.scale_spec(self.fuzz))
    }

    /// Scattering fails exactly when the perturbed reflection points into
    /// the surface; otherwise the ray bounces from the hit point with the
    /// albedo as attenuation and the incoming time stamp.
    pub open spec fn scatter_spec(self, r: Ray, hit: Hit, s: u64) -> (Option<(Ray, Color)>, u64) {
        let dir = self.scatter_direction_spec(r, hit, s);
        let s1 = random_in_disk_spec(s, SAMPLE_ATTEMPTS as nat).1;
        if dir.dot_spec(hit.normal) <= 0 {
            (None, s1)
        } else {
            (Some((Ray { origin: hit.p, dir, tm: r.tm }, self.color)), s1)
        }
    }

    /// A perfect mirror (fuzz 0) over an axis-aligned plane never absorbs:
    /// a ray coming down onto the +y plane with components of at most unit
    /// magnitude and a clearly negative vertical part always scatters.
    pub proof fn lemma_mirror_scatters(self, r: Ray, hit: Hit, s: u64)
        requires
            self.wf(),
            self.fuzz == 0,
            hit.normal == (Vec3 { x: 0i64, y: FX_ONE as i64, z: 0i64 }),
            crate::fx::mag(r.dir.x as int) <= FX_ONE,
            crate::fx::mag(r.dir.z as int) <= FX_ONE,
            -(FX_ONE as int) <= r.dir.y <= -2,
        ensures
            self.scatter_spec(r, hit, s).0 is Some,
    {
        let n = hit.normal;
        let v = r.dir;
        lemma_reflect_plus_y(v);
        let refl = v.reflect_spec(n);
        let drawn = crate::rng::random_in_disk_spec(s, SAMPLE_ATTEMPTS as nat);
        lemma_scale_zero(drawn.0);
        assert(drawn.0.scale_spec(0i64) == (Vec3 { x: 0i64, y: 0i64, z: 0i64 }));
        if refl.length_spec() > 0 {
            lemma_unit_y_at_least_one(refl);
            let unit = refl.unit_spec();
            let dir = unit.add_spec(drawn.0.scale_spec(self.fuzz));
            assert(dir.y == unit.y);
            lemma_dot_plus_y(dir);
            assert(dir.dot_spec(n) == dir.y);
        } else {
            let dir = n.add_spec(drawn.0.scale_spec(self.fuzz));
            assert(dir == n);
            lemma_dot_plus_y(dir);
            assert(dir.dot_spec(n) == FX_ONE);
        }
    }

    pub fn new(color: Color, fuzz: i64) -> (m: Metal)
        ensures
            m == (Metal { color, fuzz }),
    {
        Metal { color, fuzz }
    }

    pub fn scatter(&self, r: &Ray, hit: &Hit, rng: &mut Rng) -> (res: Option<(Ray, Color)>)
        requires
            self.wf(),
        ensures
            (res, final(rng).state) == self.scatter_spec(*r, *hit, old(rng).state),
            res is None <==> self.scatter_direction_spec(*r, *hit, old(rng).state).dot_spec(
                hit.normal,
            ) <= 0,
            res is Some ==> (res->0).1 == self.color,
            res is Some ==> (res->0).0.origin == hit.p,
            res is Some ==> (res->0).0.tm == r.tm,
    {
        let reflected = r.direction().reflect(&hit.normal);
        let len = reflected.length();
        let unit = if len > 0 {
            reflected.unit_vector()
        } else {
            hit.normal
        };
        let drawn = random_unit_in_disk(rng);
        let dir = unit.add(drawn.scale(self.fuzz));
        if dir.dot(&hit.normal) <= 0 {
            return None;
        }
        Some((Ray::new(hit.p, dir, r.tm()), self.color))
    }
}


/// Scaling any vector by zero gives the zero vector.
proof fn lemma_scale_zero(v: Vec3)
    ensures
        v.scale_spec(0i64) == (Vec3 { x: 0i64, y: 0i64, z: 0i64 }),
{
    assert(v.x * 0 == 0 && v.y * 0 == 0 && v.z * 0 == 0) by (nonlinear_arith);
}

/// The dot product with the +y unit normal picks out the y component.
proof fn lemma_dot_plus_y(v: Vec3)
    requires
        crate::fx::mag(v.y as int) <= crate::fx::FX_MAX,
    ensures
        v.dot_spec(Vec3 { x: 0i64, y: FX_ONE as i64, z: 0i64 }) == v.y,
{
    let s32 = 4294967296int;
    assert(v.x * 0 == 0 && v.z * 0 == 0) by (nonlinear_arith);
    assert(v.y * s32 == s32 * (v.y as int) && (-(v.y as int)) * s32 == s32 * (-(v.y as int)))
        by (nonlinear_arith)
        requires
            s32 == 4294967296,
    ;
    vstd::arithmetic::div_mod::lemma_div_multiples_vanish(-(v.y as int), s32);
    vstd::arithmetic::div_mod::lemma_div_multiples_vanish(v.y as int, s32);
}

/// Reflecting about the +y unit normal flips exactly the y component.
proof fn lemma_reflect_plus_y(v: Vec3)
    requires
        -(FX_ONE as int) <= v.y <= 0,
        crate::fx::mag(v.x as int) <= crate::fx::FX_MAX,
        crate::fx::mag(v.z as int) <= crate::fx::FX_MAX,
    ensures
        v.reflect_spec(Vec3 { x: 0i64, y: FX_ONE as i64, z: 0i64 }) == (Vec3 {
            x: v.x,
            y: (-(v.y as int)) as i64,
            z: v.z,
        }),
{
    let s32 = 4294967296int;
    let n = Vec3 { x: 0i64, y: FX_ONE as i64, z: 0i64 };
    lemma_dot_plus_y(v);
    let d = v.dot_spec(n);
    assert(d == v.y);
    let scaled = n.scale_spec(d);
    assert(d * 0 == 0 && 0 * d == 0) by (nonlinear_arith);
    assert(s32 * (d as int) == (d as int) * s32) by (nonlinear_arith);
    vstd::arithmetic::div_mod::lemma_div_multiples_vanish(d as int, s32);
    assert(scaled == (Vec3 { x: 0i64, y: v.y, z: 0i64 }));
    let twice = scaled.scale_spec(crate::vec3::FX_TWO);
    assert((v.y as int) * 8589934592 == s32 * (2 * (v.y as int))) by (nonlinear_arith)
        requires
            s32 == 4294967296,
    ;
    vstd::arithmetic::div_mod::lemma_div_multiples_vanish(2 * (v.y as int), s32);
    assert(0 * 8589934592 == 0) by (nonlinear_arith);
    assert(twice == (Vec3 { x: 0i64, y: (2 * v.y) as i64, z: 0i64 }));
}

/// A reflection with unit-bounded components and a vertical part of at
/// least two representation steps normalizes to a direction that still
/// points up.
proof fn lemma_unit_y_at_least_one(refl: Vec3)
    requires
        crate::fx::mag(refl.x as int) <= FX_ONE,
        crate::fx::mag(refl.z as int) <= FX_ONE,
        2 <= refl.y <= FX_ONE,
        refl.length_spec() > 0,
    ensures
        refl.unit_spec().y >= 1,
{
    let s32 = 4294967296int;
    let lensq = refl.length_squared_spec();
    crate::vec3::lemma_dot_self_nonneg(refl);
    crate::fx::lemma_fx_unit_mul((crate::fx::mag(refl.x as int)) as i64, (crate::fx::mag(
        refl.x as int,
    )) as i64);
    crate::fx::lemma_fx_unit_mul(refl.y, refl.y);
    crate::fx::lemma_fx_unit_mul((crate::fx::mag(refl.z as int)) as i64, (crate::fx::mag(
        refl.z as int,
    )) as i64);
    assert(refl.x * refl.x == crate::fx::mag(refl.x as int) * crate::fx::mag(refl.x as int)
        && refl.z * refl.z == crate::fx::mag(refl.z as int) * crate::fx::mag(refl.z as int))
        by (nonlinear_arith);
    assert(lensq <= 3 * s32);
    let len = refl.length_spec();
    let n0 = (lensq * s32) as nat;
    crate::fx::lemma_sqrt_floor(n0);
    assert((2 * s32) * (2 * s32) == 4 * (s32 * s32) && (lensq as int) * s32 <= 3 * (s32 * s32))
        by (nonlinear_arith)
        requires
            lensq <= 3 * s32,
            lensq >= 0,
            s32 == 4294967296,
    ;
    let root = crate::fx::sqrt_floor(n0);
    assert(root < 2 * s32) by (nonlinear_arith)
        requires
            root >= 0,
            root * root <= n0,
            n0 <= 3 * (s32 * s32),
            (2 * s32) * (2 * s32) == 4 * (s32 * s32),
            s32 == 4294967296,
    ;
    assert(len == root);
    assert(len < 2 * s32);
    assert((refl.y as int) * s32 >= 2 * s32) by (nonlinear_arith)
        requires
            refl.y >= 2,
            s32 == 4294967296,
    ;
    vstd::arithmetic::div_mod::lemma_div_multiples_vanish(1, len as int);
    vstd::arithmetic::div_mod::lemma_div_is_ordered(
        len as int,
        (refl.y as int) * s32,
        len as int,
    );
}

impl crate::materials::Material for Metal {
    open spec fn scatter_req(&self) -> bool {
        self.wf()
    }

    open spec fn scatter_model(&self, r: Ray, hit: Hit, s: u64) -> (Option<(Ray, Color)>, u64) {
        self.scatter_spec(r, hit, s)
    }

    fn scatter(&self, r: &Ray, hit: &Hit, rng: &mut Rng) -> (res: Option<(Ray, Color)>) {
        Metal::scatter(self, r, hit, rng)
    }
}

} // verus!
