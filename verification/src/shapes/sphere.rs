//! Ray-sphere intersection.

use vstd::prelude::*;

use crate::fx::fx_add;
use crate::fx::fx_add_spec;
use crate::fx::fx_div;
use crate::fx::fx_div_spec;
use crate::fx::fx_mul;
use crate::fx::fx_mul_spec;
use crate::fx::fx_sqrt;
use crate::fx::fx_sqrt_spec;
use crate::fx::fx_sub;
use crate::fx::fx_sub_spec;
use crate::fx::FX_ONE;
use crate::hittable::Hit;
use crate::hittable::Hittable;
use crate::materials::Materials;
use crate::ray::Ray;
use crate::vec3::Point3D;
use crate::vec3::Vec3;

verus! {

/// Smallest accepted hit parameter (about 1e-7), so that a bounced ray
/// cannot immediately re-hit the surface it started on (shadow acne).
pub const FX_T_MIN: i64 = 429;

/// A sphere, possibly moving linearly over the shutter interval.
/// A static sphere is the degenerate case with zero displacement.
#[derive(Clone, Copy, PartialEq, Eq, Structural, Debug)]
pub struct Sphere {
    pub center_start: Point3D,
    pub radius: i64,
    pub mat: Materials,
    pub is_moving: bool,
    pub center_vec: Vec3,
}

impl Sphere {
    /// A positive radius and sensible material parameters.
    pub open spec fn wf(self) -> bool {
        self.radius > 0 && self.mat.wf()
    }

    /// The center at the given shutter time: linear interpolation by the
    /// displacement vector.
    pub open spec fn center_spec(self, time: i64) -> Point3D {
        self.center_start.add_spec(self.center_vec.scale_spec(time))
    }

    /// Where the ray meets the sphere: solve the half-b quadratic, take the
    /// smaller admissible root, fall back to the larger, and report no hit
    /// when the discriminant is negative, both roots are below the
    /// threshold, or the ray direction is degenerate (zero-length).
    pub open spec fn hit_spec(self, r: Ray) -> Option<Hit>
        recommends
            self.wf(),
    {
        let center = self.center_spec(r.tm);
        let oc = center.sub_spec(r.origin);
        let a = r.dir.length_squared_spec();
        let h = r.dir.dot_spec(oc);
        let c = fx_sub_spec(oc.length_squared_spec(), fx_mul_spec(self.radius, self.radius));
        let discriminant = fx_sub_spec(fx_mul_spec(h, h), fx_mul_spec(a, c));
        if discriminant < 0 || a <= 0 {
            None
        } else {
            let sqrt_d = fx_sqrt_spec(discriminant);
            let root_1 = fx_div_spec(fx_sub_spec(h, sqrt_d), a);
            let root_2 = fx_div_spec(fx_add_spec(h, sqrt_d), a);
            let lo = if root_1 > root_2 {
                root_2
            } else {
                root_1
            };
            let hi = if root_1 > root_2 {
                root_1
            } else {
                root_2
            };
            let t = if lo >= FX_T_MIN {
                lo
            } else {
                hi
            };
            if t < FX_T_MIN {
                None
            } else {
                let p = r.at_spec(t);
                let outward = p.sub_spec(center).scale_spec(fx_div_spec(FX_ONE, self.radius));
                Some(Hit::make_spec(r, p, outward, self.mat, t))
            }
        }
    }

    /// A static sphere.
    pub fn new(center: Point3D, radius: i64, mat: Materials) -> (s: Sphere)
        requires
            radius > 0,
            mat.wf(),
        ensures
            s == (Sphere {
                center_start: center,
                radius,
                mat,
                is_moving: false,
                center_vec: Vec3 { x: 0i64, y: 0i64, z: 0i64 },
            }),
            s.wf(),
    {
        Sphere {
            center_start: center,
            radius,
            mat,
            is_moving: false,
            center_vec: Vec3 { x: 0, y: 0, z: 0 },
        }
    }

    /// A sphere whose center moves from `center_start` to `center_end`
    /// over the shutter interval.
    pub fn new_moving(center_start: Point3D, center_end: Point3D, radius: i64, mat: Materials) -> (s:
        Sphere)
        requires
            radius > 0,
            mat.wf(),
        ensures
            s == (Sphere {
                center_start,
                radius,
                mat,
                is_moving: true,
                center_vec: center_end.sub_spec(center_start),
            }),
            s.wf(),
    {
        Sphere {
            center_start,
            radius,
            mat,
            is_moving: true,
            center_vec: center_end.sub(center_start),
        }
    }

    pub fn center(&self, time: i64) -> (c: Point3D)
        ensures
            c == self.center_spec(time),
    {
        self.center_start.add(self.center_vec.scale(time))
    }

    /// The discriminant of the half-b quadratic for this sphere and ray.
    pub open spec fn discriminant_spec(self, r: Ray) -> i64 {
        let center = self.center_spec(r.tm);
        let oc = center.sub_spec(r.origin);
        let a = r.dir.length_squared_spec();
        let h = r.dir.dot_spec(oc);
        let c = fx_sub_spec(oc.length_squared_spec(), fx_mul_spec(self.radius, self.radius));
        fx_sub_spec(fx_mul_spec(h, h), fx_mul_spec(a, c))
    }

    /// A ray aimed straight at the center of a sphere k units away with
    /// radius m < k units: the discriminant is exactly m^2 (positive, so
    /// the quadratic has two distinct real roots), the hit exists, and
    /// its parameter is the smaller root, exactly distance minus radius.
    pub proof fn lemma_hit_head_on(self, r: Ray, k: int, m: int)
        requires
            1 <= m < k <= 40000,
            self.wf(),
            self.center_vec == (Vec3 { x: 0i64, y: 0i64, z: 0i64 }),
            self.center_start.x == 0 && self.center_start.y == 0,
            self.center_start.z == -(k * 4294967296),
            self.radius == m * 4294967296,
            r.origin == (Vec3 { x: 0i64, y: 0i64, z: 0i64 }),
            r.dir.x == 0 && r.dir.y == 0 && r.dir.z == -4294967296,
        ensures
            self.discriminant_spec(r) == m * m * 4294967296,
            self.discriminant_spec(r) > 0,
            self.hit_spec(r) is Some,
            (self.hit_spec(r)->0).t == (k - m) * 4294967296,
    {
        let s32 = 4294967296int;
        let kz = k * s32;
        let mz = m * s32;
        assert(k * k <= 1600000000 && m * m < 1600000000 && m * m >= 1) by (nonlinear_arith)
            requires
                1 <= m < k <= 40000,
        ;
        assert(0 < kz <= 171798691840000 && 0 < mz < kz) by (nonlinear_arith)
            requires
                1 <= m < k <= 40000,
                kz == k * s32,
                mz == m * s32,
                s32 == 4294967296,
        ;
        let center = self.center_spec(r.tm);
        assert(fx_mul_spec(0i64, r.tm) == 0);
        assert(center == (Vec3 { x: 0i64, y: 0i64, z: (-kz) as i64 }));
        let oc = center.sub_spec(r.origin);
        assert(oc == (Vec3 { x: 0i64, y: 0i64, z: (-kz) as i64 }));
        vstd::arithmetic::div_mod::lemma_div_multiples_vanish(s32, s32);
        assert((-4294967296) * (-4294967296) == s32 * s32) by (nonlinear_arith)
            requires
                s32 == 4294967296,
        ;
        let a = r.dir.length_squared_spec();
        assert(a == s32);
        assert((-s32) * (-kz) == s32 * kz) by (nonlinear_arith);
        vstd::arithmetic::div_mod::lemma_div_multiples_vanish(kz, s32);
        let h = r.dir.dot_spec(oc);
        assert(h == kz);
        assert((-kz) * (-kz) == s32 * (k * k * s32)) by (nonlinear_arith)
            requires
                kz == k * s32,
                s32 == 4294967296,
        ;
        vstd::arithmetic::div_mod::lemma_div_multiples_vanish(k * k * s32, s32);
        assert(k * k * s32 <= 1600000000 * 4294967296) by (nonlinear_arith)
            requires
                k * k <= 1600000000,
                s32 == 4294967296,
        ;
        assert(oc.length_squared_spec() == k * k * s32);
        assert(mz * mz == s32 * (m * m * s32)) by (nonlinear_arith)
            requires
                mz == m * s32,
                s32 == 4294967296,
        ;
        vstd::arithmetic::div_mod::lemma_div_multiples_vanish(m * m * s32, s32);
        assert(m * m * s32 < 1600000000 * 4294967296) by (nonlinear_arith)
            requires
                m * m < 1600000000,
                s32 == 4294967296,
        ;
        assert(fx_mul_spec(self.radius, self.radius) == m * m * s32);
        assert(0 <= m * m * s32 <= k * k * s32 <= 1600000000 * 4294967296) by (nonlinear_arith)
            requires
                1 <= m < k <= 40000,
                s32 == 4294967296,
        ;
        assert(k * k * s32 - (k * k * s32 - m * m * s32) == m * m * s32);
        let c = fx_sub_spec(oc.length_squared_spec(), fx_mul_spec(self.radius, self.radius));
        assert(c == (k * k - m * m) * s32) by (nonlinear_arith)
            requires
                c == crate::fx::clip(k * k * s32 - m * m * s32) as i64,
                0 <= m * m * s32 <= k * k * s32 <= 1600000000 * 4294967296,
                s32 == 4294967296,
        ;
        assert(kz * kz == s32 * (k * k * s32)) by (nonlinear_arith)
            requires
                kz == k * s32,
                s32 == 4294967296,
        ;
        assert(fx_mul_spec(h, h) == k * k * s32);
        assert(s32 * ((k * k - m * m) * s32) == s32 * c) by (nonlinear_arith)
            requires
                c == (k * k - m * m) * s32,
        ;
        vstd::arithmetic::div_mod::lemma_div_multiples_vanish(c as int, s32);
        assert(fx_mul_spec(a as i64, c) == c);
        let disc = self.discriminant_spec(r);
        assert(disc == crate::fx::clip(k * k * s32 - c) as i64);
        assert(disc == m * m * s32) by (nonlinear_arith)
            requires
                disc == crate::fx::clip(k * k * s32 - (k * k - m * m) * s32) as i64,
                0 <= m * m * s32 < 1600000000 * 4294967296,
                k * k * s32 - (k * k - m * m) * s32 == m * m * s32,
                s32 == 4294967296,
        ;
        assert(k * k * s32 - (k * k - m * m) * s32 == m * m * s32) by (nonlinear_arith);
        let sq = crate::fx::fx_sqrt_spec(disc);
        assert((m * m * s32) * s32 == mz * mz) by (nonlinear_arith)
            requires
                mz == m * s32,
                s32 == 4294967296,
        ;
        assert((mz + 1) * (mz + 1) > mz * mz) by (nonlinear_arith)
            requires
                mz > 0,
        ;
        crate::fx::lemma_sqrt_floor_unique(((m * m * s32) * s32) as nat, mz as nat);
        assert(sq == mz);
        let diff = fx_sub_spec(h, sq as i64);
        assert(diff == (k - m) * s32) by (nonlinear_arith)
            requires
                diff == crate::fx::clip(kz - mz) as i64,
                kz == k * s32,
                mz == m * s32,
                0 < mz < kz <= 171798691840000,
                s32 == 4294967296,
        ;
        let summ = fx_add_spec(h, sq as i64);
        assert(summ == (k + m) * s32) by (nonlinear_arith)
            requires
                summ == crate::fx::clip(kz + mz) as i64,
                kz == k * s32,
                mz == m * s32,
                0 < mz < kz <= 171798691840000,
                s32 == 4294967296,
        ;
        assert(diff * s32 == s32 * (((k - m) * s32) as int)) by (nonlinear_arith)
            requires
                diff == (k - m) * s32,
        ;
        vstd::arithmetic::div_mod::lemma_div_multiples_vanish((k - m) * s32, s32);
        let root_1 = fx_div_spec(diff, a as i64);
        assert(0 < diff && 0 < summ) by (nonlinear_arith)
            requires
                diff == (k - m) * s32,
                summ == (k + m) * s32,
                1 <= m < k,
                s32 == 4294967296,
        ;
        assert(root_1 == (k - m) * s32);
        assert(summ * s32 == s32 * (((k + m) * s32) as int)) by (nonlinear_arith)
            requires
                summ == (k + m) * s32,
        ;
        vstd::arithmetic::div_mod::lemma_div_multiples_vanish((k + m) * s32, s32);
        let root_2 = fx_div_spec(summ, a as i64);
        assert(root_2 == (k + m) * s32);
        assert(root_1 <= root_2 && root_1 >= s32) by (nonlinear_arith)
            requires
                root_1 == (k - m) * s32,
                root_2 == (k + m) * s32,
                1 <= m < k,
                s32 == 4294967296,
        ;
    }

    /// Translation invariance of the hit parameter: a static sphere at
    /// center C meets a ray at the same t as a sphere at the origin meets
    /// the ray translated by -C.  (The contact point and normal are
    /// expressed in the respective frames, so only t is compared.)
    pub proof fn lemma_hit_translation(self, r: Ray)
        requires
            self.wf(),
            self.center_vec == (Vec3 { x: 0i64, y: 0i64, z: 0i64 }),
            crate::fx::mag(self.center_start.x as int) <= crate::fx::FX_MAX,
            crate::fx::mag(self.center_start.y as int) <= crate::fx::FX_MAX,
            crate::fx::mag(self.center_start.z as int) <= crate::fx::FX_MAX,
        ensures
            ({
                let moved = Sphere {
                    center_start: Vec3 { x: 0i64, y: 0i64, z: 0i64 },
                    ..self
                };
                let shifted = Ray {
                    origin: r.origin.sub_spec(self.center_start),
                    dir: r.dir,
                    tm: r.tm,
                };
                &&& (self.hit_spec(r) is Some <==> moved.hit_spec(shifted) is Some)
                &&& (self.hit_spec(r) is Some ==> (self.hit_spec(r)->0).t == (moved.hit_spec(
                    shifted,
                )->0).t)
            }),
    {
        let moved = Sphere { center_start: Vec3 { x: 0i64, y: 0i64, z: 0i64 }, ..self };
        let shifted = Ray { origin: r.origin.sub_spec(self.center_start), dir: r.dir, tm: r.tm };
        let c1 = self.center_spec(r.tm);
        let c2 = moved.center_spec(shifted.tm);
        assert(c1 == self.center_start);
        assert(c2 == (Vec3 { x: 0i64, y: 0i64, z: 0i64 }));
        let oc1 = c1.sub_spec(r.origin);
        let oc2 = c2.sub_spec(shifted.origin);
        assert(oc1.x == oc2.x);
        assert(oc1.y == oc2.y);
        assert(oc1.z == oc2.z);
    }

    pub fn hit(&self, r: &Ray) -> (res: Option<Hit>)
        requires
            self.wf(),
        ensures
            res == self.hit_spec(*r),
            res is Some ==> (res->0).mat == self.mat,
            res is Some ==> (res->0).t >= FX_T_MIN,
    {
        let center = self.center(r.tm());
        let oc = center.sub(r.origin());
        let a = r.direction().length_squared();
        let h = r.direction().dot(&oc);
        let c = fx_sub(oc.length_squared(), fx_mul(self.radius, self.radius));
        let discriminant = fx_sub(fx_mul(h, h), fx_mul(a, c));
        if discriminant < 0 || a <= 0 {
            return None;
        }
        let sqrt_d = fx_sqrt(discriminant);
        let root_1 = fx_div(fx_sub(h, sqrt_d), a);
        let root_2 = fx_div(fx_add(h, sqrt_d), a);
        let (lo, hi) = if root_1 > root_2 {
            (root_2, root_1)
        } else {
            (root_1, root_2)
        };
        let t = if lo >= FX_T_MIN {
            lo
        } else {
            hi
        };
        if t < FX_T_MIN {
            return None;
        }
        let p = r.at(t);
        let outward = p.sub(center).scale(fx_div(FX_ONE, self.radius));
        Some(Hit::new(r, p, outward, self.mat, t))
    }
}

impl Hittable for Sphere {
    open spec fn hit_req(&self) -> bool {
        self.wf()
    }

    open spec fn hit_model(&self, r: Ray) -> Option<Hit> {
        self.hit_spec(r)
    }

    fn hit(&self, r: &Ray) -> (res: Option<Hit>) {
        Sphere::hit(self, r)
    }
}

} // verus!
