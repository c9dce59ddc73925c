//! 3-D vectors over fixed-point scalars.
//!
//! `Vec3` doubles as a point and as an RGB triple before byte conversion.
//! Every operation has an exact specification built from the scalar specs,
//! so a chain of vector operations denotes one definite integer value.

use vstd::prelude::*;

use crate::fx::clip;
use crate::fx::fx_add;
use crate::fx::fx_add_spec;
use crate::fx::fx_div;
use crate::fx::fx_div_spec;
use crate::fx::fx_mul;
use crate::fx::fx_mul_spec;
use crate::fx::fx_neg;
use crate::fx::fx_neg_spec;
use crate::fx::fx_sqrt;
use crate::fx::fx_sqrt_spec;
use crate::fx::fx_sub;
use crate::fx::fx_sub_spec;
use crate::fx::mag;
use crate::fx::scale_down;
use crate::fx::FX_ONE;

verus! {

/// Magnitude below which a component counts as zero (about 1e-7).
pub const FX_NEAR_ZERO: i64 = 429;

/// The fixed-point representation of 2.
pub const FX_TWO: i64 = 8589934592;

/// A vector of three fixed-point scalars; also used as a point and a color.
#[derive(Clone, Copy, PartialEq, Eq, Structural, Debug)]
pub struct Vec3 {
    pub x: i64,
    pub y: i64,
    pub z: i64,
}

/// A point in space, represented as a vector from the origin.
pub type Point3D = Vec3;

impl Vec3 {
    pub open spec fn add_spec(self, rhs: Vec3) -> Vec3 {
        Vec3 {
            x: fx_add_spec(self.x, rhs.x),
            y: fx_add_spec(self.y, rhs.y),
            z: fx_add_spec(self.z, rhs.z),
        }
    }

    pub open spec fn sub_spec(self, rhs: Vec3) -> Vec3 {
        Vec3 {
            x: fx_sub_spec(self.x, rhs.x),
            y: fx_sub_spec(self.y, rhs.y),
            z: fx_sub_spec(self.z, rhs.z),
        }
    }

    pub open spec fn neg_spec(self) -> Vec3 {
        Vec3 { x: fx_neg_spec(self.x), y: fx_neg_spec(self.y), z: fx_neg_spec(self.z) }
    }

    /// Multiply every component by the scalar s.
    pub open spec fn scale_spec(self, s: i64) -> Vec3 {
        Vec3 {
            x: fx_mul_spec(self.x, s),
            y: fx_mul_spec(self.y, s),
            z: fx_mul_spec(self.z, s),
        }
    }

    /// Component-wise product.
    pub open spec fn mul_spec(self, rhs: Vec3) -> Vec3 {
        Vec3 {
            x: fx_mul_spec(self.x, rhs.x),
            y: fx_mul_spec(self.y, rhs.y),
            z: fx_mul_spec(self.z, rhs.z),
        }
    }

    pub open spec fn dot_spec(self, rhs: Vec3) -> i64 {
        fx_add_spec(
            fx_add_spec(fx_mul_spec(self.x, rhs.x), fx_mul_spec(self.y, rhs.y)),
            fx_mul_spec(self.z, rhs.z),
        )
    }

    pub open spec fn cross_spec(self, rhs: Vec3) -> Vec3 {
        Vec3 {
            x: fx_sub_spec(fx_mul_spec(self.y, rhs.z), fx_mul_spec(self.z, rhs.y)),
            y: fx_sub_spec(fx_mul_spec(self.z, rhs.x), fx_mul_spec(self.x, rhs.z)),
            z: fx_sub_spec(fx_mul_spec(self.x, rhs.y), fx_mul_spec(self.y, rhs.x)),
        }
    }

    pub open spec fn length_squared_spec(self) -> i64 {
        self.dot_spec(self)
    }

    pub open spec fn length_spec(self) -> i64 {
        fx_sqrt_spec(self.length_squared_spec())
    }

    /// Scale each component by one over the length.
    pub open spec fn unit_spec(self) -> Vec3
        recommends
            self.length_spec() > 0,
    {
        Vec3 {
            x: fx_div_spec(self.x, self.length_spec()),
            y: fx_div_spec(self.y, self.length_spec()),
            z: fx_div_spec(self.z, self.length_spec()),
        }
    }

    pub open spec fn near_zero_spec(self) -> bool {
        mag(self.x as int) < FX_NEAR_ZERO && mag(self.y as int) < FX_NEAR_ZERO
            && mag(self.z as int) < FX_NEAR_ZERO
    }

    pub fn new(x: i64, y: i64, z: i64) -> (r: Vec3)
        ensures
            r == (Vec3 { x, y, z }),
    {
        Vec3 { x, y, z }
    }

    pub fn zero() -> (r: Vec3)
        ensures
            r == (Vec3 { x: 0i64, y: 0i64, z: 0i64 }),
    {
        Vec3 { x: 0, y: 0, z: 0 }
    }

    /// The x axis unit vector.
    pub fn unit_x() -> (r: Vec3)
        ensures
            r == (Vec3 { x: FX_ONE as i64, y: 0i64, z: 0i64 }),
    {
        Vec3 { x: FX_ONE, y: 0, z: 0 }
    }

    /// The y axis unit vector.
    pub fn unit_y() -> (r: Vec3)
        ensures
            r == (Vec3 { x: 0i64, y: FX_ONE as i64, z: 0i64 }),
    {
        Vec3 { x: 0, y: FX_ONE, z: 0 }
    }

    /// The z axis unit vector.
    pub fn unit_z() -> (r: Vec3)
        ensures
            r == (Vec3 { x: 0i64, y: 0i64, z: FX_ONE as i64 }),
    {
        Vec3 { x: 0, y: 0, z: FX_ONE }
    }

    pub fn x(&self) -> (r: i64)
        ensures
            r == self.x,
    {
        self.x
    }

    pub fn y(&self) -> (r: i64)
        ensures
            r == self.y,
    {
        self.y
    }

    pub fn z(&self) -> (r: i64)
        ensures
            r == self.z,
    {
        self.z
    }

    pub fn x_mut(&mut self) -> (r: &mut i64)
        ensures
            *r == old(self).x,
            *final(self) == (Vec3 { x: *final(r), y: old(self).y, z: old(self).z }),
    {
        &mut self.x
    }

    pub fn y_mut(&mut self) -> (r: &mut i64)
        ensures
            *r == old(self).y,
            *final(self) == (Vec3 { x: old(self).x, y: *final(r), z: old(self).z }),
    {
        &mut self.y
    }

    pub fn z_mut(&mut self) -> (r: &mut i64)
        ensures
            *r == old(self).z,
            *final(self) == (Vec3 { x: old(self).x, y: old(self).y, z: *final(r) }),
    {
        &mut self.z
    }

    pub fn add(self, rhs: Vec3) -> (r: Vec3)
        ensures
            r == self.add_spec(rhs),
    {
        Vec3 {
            x: fx_add(self.x, rhs.x),
            y: fx_add(self.y, rhs.y),
            z: fx_add(self.z, rhs.z),
        }
    }

    pub fn sub(self, rhs: Vec3) -> (r: Vec3)
        ensures
            r == self.sub_spec(rhs),
    {
        Vec3 {
            x: fx_sub(self.x, rhs.x),
            y: fx_sub(self.y, rhs.y),
            z: fx_sub(self.z, rhs.z),
        }
    }

    pub fn neg(self) -> (r: Vec3)
        ensures
            r == self.neg_spec(),
    {
        Vec3 { x: fx_neg(self.x), y: fx_neg(self.y), z: fx_neg(self.z) }
    }

    pub fn scale(self, s: i64) -> (r: Vec3)
        ensures
            r == self.scale_spec(s),
    {
        Vec3 { x: fx_mul(self.x, s), y: fx_mul(self.y, s), z: fx_mul(self.z, s) }
    }

    pub fn mul(self, rhs: Vec3) -> (r: Vec3)
        ensures
            r == self.mul_spec(rhs),
    {
        Vec3 {
            x: fx_mul(self.x, rhs.x),
            y: fx_mul(self.y, rhs.y),
            z: fx_mul(self.z, rhs.z),
        }
    }

    pub fn dot(&self, rhs: &Vec3) -> (r: i64)
        ensures
            r == self.dot_spec(*rhs),
    {
        fx_add(
            fx_add(fx_mul(self.x, rhs.x), fx_mul(self.y, rhs.y)),
            fx_mul(self.z, rhs.z),
        )
    }

    pub fn cross(&self, rhs: &Vec3) -> (r: Vec3)
        ensures
            r == self.cross_spec(*rhs),
    {
        Vec3 {
            x: fx_sub(fx_mul(self.y, rhs.z), fx_mul(self.z, rhs.y)),
            y: fx_sub(fx_mul(self.z, rhs.x), fx_mul(self.x, rhs.z)),
            z: fx_sub(fx_mul(self.x, rhs.y), fx_mul(self.y, rhs.x)),
        }
    }

    pub fn length_squared(&self) -> (r: i64)
        ensures
            r == self.length_squared_spec(),
            r >= 0,
    {
        proof {
            lemma_dot_self_nonneg(*self);
        }
        self.dot(self)
    }

    pub fn length(&self) -> (r: i64)
        ensures
            r == self.length_spec(),
            r >= 0,
    {
        let sq = self.length_squared();
        fx_sqrt(sq)
    }

    /// The vector scaled to length one.  Undefined on (near-)zero input,
    /// which callers must rule out or substitute for themselves.
    pub fn unit_vector(&self) -> (r: Vec3)
        requires
            self.length_spec() > 0,
        ensures
            r == self.unit_spec(),
    {
        let len = self.length();
        Vec3 {
            x: fx_div(self.x, len),
            y: fx_div(self.y, len),
            z: fx_div(self.z, len),
        }
    }

    /// Mirror about the plane orthogonal to the normal n.
    pub open spec fn reflect_spec(self, n: Vec3) -> Vec3 {
        self.sub_spec(n.scale_spec(self.dot_spec(n)).scale_spec(FX_TWO))
    }

    /// The refracted direction by Snell's law, given the refraction-index
    /// ratio; the caller has already ruled out total internal reflection.
    pub open spec fn refract_spec(self, n: Vec3, etai_over_etat: i64) -> Vec3 {
        let cos_theta = if self.neg_spec().dot_spec(n) <= FX_ONE {
            self.neg_spec().dot_spec(n)
        } else {
            FX_ONE
        };
        let r_perp = self.add_spec(n.scale_spec(cos_theta)).scale_spec(etai_over_etat);
        let r_parallel = n.scale_spec(
            fx_neg_spec(
                fx_sqrt_spec(
                    clip(mag(fx_sub_spec(FX_ONE, r_perp.length_squared_spec()) as int)) as i64,
                ),
            ),
        );
        r_perp.add_spec(r_parallel)
    }

    /// `v - 2*dot(v,n)*n`.
    pub fn reflect(&self, normal: &Vec3) -> (r: Vec3)
        ensures
            r == self.reflect_spec(*normal),
    {
        let d = self.dot(normal);
        self.sub(normal.scale(d).scale(FX_TWO))
    }

    /// Snell refraction; see `refract_spec`.
    pub fn refract(&self, normal: &Vec3, etai_over_etat: i64) -> (r: Vec3)
        ensures
            r == self.refract_spec(*normal, etai_over_etat),
    {
        let cos_theta = crate::fx::fx_min(self.neg().dot(normal), FX_ONE);
        let r_perp = self.add(normal.scale(cos_theta)).scale(etai_over_etat);
        let under = crate::fx::fx_abs(fx_sub(FX_ONE, r_perp.length_squared()));
        let r_parallel = normal.scale(fx_neg(fx_sqrt(under)));
        r_perp.add(r_parallel)
    }

    /// True when every component is within the near-zero band.
    pub fn near_zero(&self) -> (r: bool)
        ensures
            r == self.near_zero_spec(),
    {
        let nx = crate::fx::fx_abs(self.x);
        let ny = crate::fx::fx_abs(self.y);
        let nz = crate::fx::fx_abs(self.z);
        nx < FX_NEAR_ZERO && ny < FX_NEAR_ZERO && nz < FX_NEAR_ZERO
    }
}

/// The square of a scalar of whole-unit magnitude k is exactly k^2.
proof fn lemma_axis_square(c: i64, k: int)
    requires
        1 <= k <= 40000,
        mag(c as int) == k * 4294967296,
    ensures
        fx_mul_spec(c, c) == k * (k * 4294967296),
{
    let s32 = 4294967296int;
    assert(k * k <= 1600000000) by (nonlinear_arith)
        requires
            1 <= k <= 40000,
    ;
    assert((c as int) * (c as int) == s32 * (k * (k * s32)) && 0 <= k * (k * s32) <= 1600000000
        * 4294967296) by (nonlinear_arith)
        requires
            mag(c as int) == k * s32,
            1 <= k <= 40000,
            k * k <= 1600000000,
            s32 == 4294967296,
    ;
    vstd::arithmetic::div_mod::lemma_div_multiples_vanish(k * (k * s32), s32);
}

/// The square root of k^2 (in fixed point) is exactly k.
proof fn lemma_axis_sqrt(k: int)
    requires
        1 <= k <= 40000,
    ensures
        crate::fx::fx_sqrt_spec((k * (k * 4294967296)) as i64) == k * 4294967296,
{
    let s32 = 4294967296int;
    let n = ((k * (k * s32)) as i64 * 4294967296) as nat;
    assert((k * (k * s32)) * s32 == (k * s32) * (k * s32) && 0 <= k * (k * s32) <= 1600000000
        * 4294967296 && 0 < k * s32 <= 171798691840000) by (nonlinear_arith)
        requires
            1 <= k <= 40000,
            s32 == 4294967296,
    ;
    assert(((k * s32) + 1) * ((k * s32) + 1) > (k * s32) * (k * s32)) by (nonlinear_arith)
        requires
            k * s32 > 0,
    ;
    crate::fx::lemma_sqrt_floor_unique(n, (k * s32) as nat);
}

/// Dividing a scalar of whole-unit magnitude k by k gives exactly one,
/// with the scalar's sign.
proof fn lemma_axis_div(c: i64, k: int)
    requires
        1 <= k <= 40000,
        mag(c as int) == k * 4294967296,
    ensures
        fx_div_spec(c, (k * 4294967296) as i64) == if c < 0 {
            -(FX_ONE as int)
        } else {
            FX_ONE as int
        },
{
    let s32 = 4294967296int;
    assert((k * s32) * s32 == (k * s32) * s32) by (nonlinear_arith);
    vstd::arithmetic::div_mod::lemma_div_multiples_vanish(s32, k * s32);
    assert(mag((k * 4294967296) as i64 as int) == k * s32) by (nonlinear_arith)
        requires
            1 <= k <= 40000,
            s32 == 4294967296,
    ;
}

/// Normalizing an axis-aligned vector of whole-unit magnitude gives a
/// vector whose fixed-point length is exactly one: for these inputs the
/// unit-length property holds with zero error.
pub proof fn lemma_unit_vector_exact_length(v: Vec3, k: int)
    requires
        1 <= k <= 40000,
        (mag(v.x as int) == k * 4294967296 && v.y == 0 && v.z == 0) || (v.x == 0 && mag(
            v.y as int,
        ) == k * 4294967296 && v.z == 0) || (v.x == 0 && v.y == 0 && mag(v.z as int) == k
            * 4294967296),
    ensures
        v.length_spec() > 0,
        v.unit_spec().length_spec() == FX_ONE,
{
    let s32 = 4294967296int;
    assert(s32 * s32 == 4294967296 * 4294967296 && (-s32) * (-s32) == s32 * s32)
        by (nonlinear_arith)
        requires
            s32 == 4294967296,
    ;
    vstd::arithmetic::div_mod::lemma_div_multiples_vanish(s32, s32);
    assert((4294967296 * 4294967296) as nat == 18446744073709551616nat) by (nonlinear_arith);
    assert(4294967296nat * 4294967296nat == 18446744073709551616nat) by (nonlinear_arith);
    assert(4294967297nat * 4294967297nat > 18446744073709551616nat) by (nonlinear_arith);
    crate::fx::lemma_sqrt_floor_unique(18446744073709551616nat, 4294967296nat);
    let m = k * s32;
    let c = if v.y == 0 && v.z == 0 {
        v.x
    } else if v.z == 0 {
        v.y
    } else {
        v.z
    };
    lemma_axis_square(c, k);
    assert(v.length_squared_spec() == (k * (k * s32)) as i64);
    lemma_axis_sqrt(k);
    assert(v.length_spec() == m);
    lemma_axis_div(c, k);
    let u = v.unit_spec();
    assert(fx_div_spec(0i64, m as i64) == 0);
    assert(mag(u.x as int) + mag(u.y as int) + mag(u.z as int) == s32);
    let uc = if v.y == 0 && v.z == 0 {
        u.x
    } else if v.z == 0 {
        u.y
    } else {
        u.z
    };
    assert(mag(uc as int) == s32);
    assert((uc as int) * (uc as int) == s32 * s32) by (nonlinear_arith)
        requires
            mag(uc as int) == s32,
    ;
    assert(u.length_squared_spec() == FX_ONE);
    assert(u.length_spec() == FX_ONE);
}

/// Truncating division distributes subadditively over a three-way sum.
proof fn lemma_div_sum_le(a: int, b: int, c: int, d: int)
    requires
        0 <= a && 0 <= b && 0 <= c,
        0 < d,
    ensures
        a / d + b / d + c / d <= (a + b + c) / d,
{
    vstd::arithmetic::div_mod::lemma_fundamental_div_mod(a, d);
    vstd::arithmetic::div_mod::lemma_fundamental_div_mod(b, d);
    vstd::arithmetic::div_mod::lemma_fundamental_div_mod(c, d);
    vstd::arithmetic::div_mod::lemma_mod_bound(a, d);
    vstd::arithmetic::div_mod::lemma_mod_bound(b, d);
    vstd::arithmetic::div_mod::lemma_mod_bound(c, d);
    let k = a / d + b / d + c / d;
    assert(d * k <= a + b + c) by (nonlinear_arith)
        requires
            a == d * (a / d) + a % d,
            b == d * (b / d) + b % d,
            c == d * (c / d) + c % d,
            a % d >= 0 && b % d >= 0 && c % d >= 0,
            k == a / d + b / d + c / d,
    ;
    assert(k >= 0) by (nonlinear_arith)
        requires
            a >= 0 && b >= 0 && c >= 0 && d > 0,
            k == a / d + b / d + c / d,
            a == d * (a / d) + a % d,
            b == d * (b / d) + b % d,
            c == d * (c / d) + c % d,
            a % d < d && b % d < d && c % d < d,
    ;
    vstd::arithmetic::div_mod::lemma_div_multiples_vanish(k, d);
    vstd::arithmetic::div_mod::lemma_div_is_ordered(d * k, a + b + c, d);
}

/// The squared magnitude of one normalized component, scaled by the
/// squared length, is at most the squared component times FX_ONE^2.
proof fn lemma_unit_component_bound(c: i64, len: i64) -> (q: int)
    requires
        len >= FX_ONE,
        mag(c as int) <= 0x400000000000,
    ensures
        q == mag(fx_div_spec(c, len) as int),
        0 <= q <= mag(c as int),
        q * q * ((len as int) * (len as int)) <= (mag(c as int) * mag(c as int)) * (
        (FX_ONE as int) * (FX_ONE as int)),
        fx_mul_spec(fx_div_spec(c, len), fx_div_spec(c, len)) == (q * q) / (FX_ONE as int),
{
    let s32 = FX_ONE as int;
    let m = mag(c as int);
    let q = (m * s32) / (len as int);
    vstd::arithmetic::div_mod::lemma_div_multiples_vanish(m, s32);
    vstd::arithmetic::div_mod::lemma_div_is_ordered_by_denominator(m * s32, s32, len as int);
    assert(q <= (m * s32) / s32);
    vstd::arithmetic::div_mod::lemma_fundamental_div_mod(m * s32, len as int);
    vstd::arithmetic::div_mod::lemma_mod_bound(m * s32, len as int);
    assert(q >= 0) by (nonlinear_arith)
        requires
            m * s32 == (len as int) * q + (m * s32) % (len as int),
            0 <= (m * s32) % (len as int) < (len as int),
            m >= 0,
            s32 > 0,
            len as int >= s32,
    ;
    assert(fx_div_spec(c, len) == if c < 0 {
        -q
    } else {
        q
    });
    assert(mag(fx_div_spec(c, len) as int) == q);
    assert((len as int) * q <= m * s32) by (nonlinear_arith)
        requires
            m * s32 == (len as int) * q + (m * s32) % (len as int),
            (m * s32) % (len as int) >= 0,
    ;
    assert(q * q * ((len as int) * (len as int)) <= (m * m) * (s32 * s32)) by (nonlinear_arith)
        requires
            0 <= (len as int) * q <= m * s32,
            q >= 0,
            len as int > 0,
            m >= 0,
            s32 > 0,
    ;
    let u = fx_div_spec(c, len);
    assert((u as int) * (u as int) == q * q) by (nonlinear_arith)
        requires
            u == fx_div_spec(c, len),
            mag(u as int) == q,
    ;
    assert(q * q <= 0x400000000000 * 0x400000000000) by (nonlinear_arith)
        requires
            0 <= q <= 0x400000000000,
    ;
    assert((q * q) / s32 <= q * q);
    assert(fx_mul_spec(u, u) == (q * q) / s32);
    q
}

/// The unit-length property of normalization: any vector of length at
/// least one whose components are at most 2^14 whole units normalizes to
/// a vector whose length is one to within four representation steps
/// (less than 1e-9), never more than two steps above.  Zero-length input
/// remains the documented degenerate case outside this statement.
pub proof fn lemma_unit_vector_nearly_unit(v: Vec3)
    requires
        v.length_spec() >= FX_ONE,
        mag(v.x as int) <= 0x400000000000,
        mag(v.y as int) <= 0x400000000000,
        mag(v.z as int) <= 0x400000000000,
    ensures
        v.unit_spec().length_spec() <= FX_ONE + 2,
        v.unit_spec().length_spec() >= FX_ONE - 4,
{
    let s32 = FX_ONE as int;
    let lensq = v.length_squared_spec();
    lemma_dot_self_nonneg(v);
    let mx = mag(v.x as int);
    let my = mag(v.y as int);
    let mz = mag(v.z as int);
    // the three squares neither clip nor let the sum clip
    assert((v.x as int) * (v.x as int) == mx * mx) by (nonlinear_arith)
        requires
            mx == v.x as int || mx == -(v.x as int),
    ;
    assert((v.y as int) * (v.y as int) == my * my) by (nonlinear_arith)
        requires
            my == v.y as int || my == -(v.y as int),
    ;
    assert((v.z as int) * (v.z as int) == mz * mz) by (nonlinear_arith)
        requires
            mz == v.z as int || mz == -(v.z as int),
    ;
    assert(mx * mx <= 0x400000000000 * 0x400000000000 && my * my <= 0x400000000000
        * 0x400000000000 && mz * mz <= 0x400000000000 * 0x400000000000) by (nonlinear_arith)
        requires
            0 <= mx <= 0x400000000000,
            0 <= my <= 0x400000000000,
            0 <= mz <= 0x400000000000,
    ;
    let tx = (mx * mx) / s32;
    let ty = (my * my) / s32;
    let tz = (mz * mz) / s32;
    assert(0 <= tx <= mx * mx && 0 <= ty <= my * my && 0 <= tz <= mz * mz) by (nonlinear_arith)
        requires
            tx == (mx * mx) / s32 && ty == (my * my) / s32 && tz == (mz * mz) / s32,
            mx * mx >= 0 && my * my >= 0 && mz * mz >= 0,
            s32 == 4294967296,
    ;
    assert(fx_mul_spec(v.x, v.x) == tx && fx_mul_spec(v.y, v.y) == ty && fx_mul_spec(v.z, v.z)
        == tz);
    assert(lensq == tx + ty + tz);
    // each square loses less than one step of the exact quotient
    vstd::arithmetic::div_mod::lemma_fundamental_div_mod(mx * mx, s32);
    vstd::arithmetic::div_mod::lemma_fundamental_div_mod(my * my, s32);
    vstd::arithmetic::div_mod::lemma_fundamental_div_mod(mz * mz, s32);
    vstd::arithmetic::div_mod::lemma_mod_bound(mx * mx, s32);
    vstd::arithmetic::div_mod::lemma_mod_bound(my * my, s32);
    vstd::arithmetic::div_mod::lemma_mod_bound(mz * mz, s32);
    assert(mx * mx + my * my + mz * mz <= s32 * (lensq as int) + 3 * s32) by (nonlinear_arith)
        requires
            mx * mx == s32 * tx + (mx * mx) % s32,
            my * my == s32 * ty + (my * my) % s32,
            mz * mz == s32 * tz + (mz * mz) % s32,
            (mx * mx) % s32 < s32 && (my * my) % s32 < s32 && (mz * mz) % s32 < s32,
            lensq == tx + ty + tz,
    ;
    // pin the length against the squared length
    let el = v.length_spec() as int;
    let n0 = ((lensq as int) * s32) as nat;
    crate::fx::lemma_sqrt_floor(n0);
    assert((lensq as int) * s32 <= 0x7fffffffffffffff * 4294967296) by (nonlinear_arith)
        requires
            0 <= lensq <= 0x7fffffffffffffff,
            s32 == 4294967296,
    ;
    let root = crate::fx::sqrt_floor(n0);
    assert(root * root <= n0);
    assert(root < 0x1000000000000) by (nonlinear_arith)
        requires
            root * root <= n0,
            n0 <= 0x7fffffffffffffff * 4294967296,
    ;
    assert(el == root);
    assert(el * el <= (lensq as int) * s32);
    assert((lensq as int) * s32 < (el + 1) * (el + 1));
    assert((lensq as int) * s32 <= el * el + 2 * el) by (nonlinear_arith)
        requires
            (lensq as int) * s32 < (el + 1) * (el + 1),
    ;
    // the normalized components, squared and summed
    let qx = lemma_unit_component_bound(v.x, v.length_spec());
    let qy = lemma_unit_component_bound(v.y, v.length_spec());
    let qz = lemma_unit_component_bound(v.z, v.length_spec());
    let u = v.unit_spec();
    let qsum = qx * qx + qy * qy + qz * qz;
    assert(qsum * (el * el) <= (mx * mx + my * my + mz * mz) * (s32 * s32)) by (nonlinear_arith)
        requires
            qx * qx * (el * el) <= (mx * mx) * (s32 * s32),
            qy * qy * (el * el) <= (my * my) * (s32 * s32),
            qz * qz * (el * el) <= (mz * mz) * (s32 * s32),
            qsum == qx * qx + qy * qy + qz * qz,
    ;
    assert(qsum * (el * el) <= (s32 * s32) * (el * el) + 5 * (s32 * s32) * el)
        by (nonlinear_arith)
        requires
            qsum * (el * el) <= (mx * mx + my * my + mz * mz) * (s32 * s32),
            mx * mx + my * my + mz * mz <= s32 * (lensq as int) + 3 * s32,
            (lensq as int) * s32 <= el * el + 2 * el,
            s32 <= el,
            s32 == 4294967296,
    ;
    assert(qsum <= s32 * s32 + 5 * s32) by (nonlinear_arith)
        requires
            qsum * (el * el) <= (s32 * s32) * (el * el) + 5 * (s32 * s32) * el,
            qsum >= 0,
            s32 <= el,
            s32 == 4294967296,
    ;
    // the squared length of the normalized vector
    let lensq_u = u.length_squared_spec();
    lemma_div_sum_le(qx * qx, qy * qy, qz * qz, s32);
    vstd::arithmetic::div_mod::lemma_div_is_ordered(qsum, s32 * s32 + 5 * s32, s32);
    assert((s32 * s32 + 5 * s32) / s32 == s32 + 5) by (nonlinear_arith)
        requires
            s32 == 4294967296,
    ;
    assert(lensq_u == (qx * qx) / s32 + (qy * qy) / s32 + (qz * qz) / s32);
    assert(lensq_u <= s32 + 5);
    lemma_dot_self_nonneg(u);
    // and its square root
    let nu = ((lensq_u as int) * s32) as nat;
    crate::fx::lemma_sqrt_floor(nu);
    let root_u = crate::fx::sqrt_floor(nu);
    assert((lensq_u as int) * s32 <= (s32 + 5) * s32) by (nonlinear_arith)
        requires
            0 <= lensq_u <= s32 + 5,
            s32 == 4294967296,
    ;
    assert(root_u <= s32 + 2) by (nonlinear_arith)
        requires
            root_u * root_u <= nu,
            nu <= (s32 + 5) * s32,
            root_u >= 0,
            s32 == 4294967296,
    ;
    assert(u.length_spec() == root_u);
    // lower bound: the squares lose at most one step each, and the
    // divisions at most one step per component of the exact quotient
    assert(mx * mx + my * my + mz * mz >= s32 * (lensq as int)) by (nonlinear_arith)
        requires
            mx * mx == s32 * tx + (mx * mx) % s32,
            my * my == s32 * ty + (my * my) % s32,
            mz * mz == s32 * tz + (mz * mz) % s32,
            (mx * mx) % s32 >= 0 && (my * my) % s32 >= 0 && (mz * mz) % s32 >= 0,
            lensq == tx + ty + tz,
    ;
    let msum = mx + my + mz;
    assert(msum * msum <= 3 * (mx * mx + my * my + mz * mz)) by (nonlinear_arith)
        requires
            msum == mx + my + mz,
    ;
    assert(msum <= 2 * el + 4) by (nonlinear_arith)
        requires
            msum * msum <= 3 * (mx * mx + my * my + mz * mz),
            mx * mx + my * my + mz * mz <= s32 * (lensq as int) + 3 * s32,
            (lensq as int) * s32 <= el * el + 2 * el,
            msum >= 0,
            s32 <= el,
            s32 == 4294967296,
    ;
    vstd::arithmetic::div_mod::lemma_fundamental_div_mod(mx * s32, el);
    vstd::arithmetic::div_mod::lemma_fundamental_div_mod(my * s32, el);
    vstd::arithmetic::div_mod::lemma_fundamental_div_mod(mz * s32, el);
    vstd::arithmetic::div_mod::lemma_mod_bound(mx * s32, el);
    vstd::arithmetic::div_mod::lemma_mod_bound(my * s32, el);
    vstd::arithmetic::div_mod::lemma_mod_bound(mz * s32, el);
    assert((el * qx) * (el * qx) >= (mx * s32) * (mx * s32) - 2 * el * (mx * s32))
        by (nonlinear_arith)
        requires
            mx * s32 == el * qx + (mx * s32) % el,
            0 <= (mx * s32) % el < el,
            el > 0,
            mx >= 0,
            s32 > 0,
    ;
    assert((el * qy) * (el * qy) >= (my * s32) * (my * s32) - 2 * el * (my * s32))
        by (nonlinear_arith)
        requires
            my * s32 == el * qy + (my * s32) % el,
            0 <= (my * s32) % el < el,
            el > 0,
            my >= 0,
            s32 > 0,
    ;
    assert((el * qz) * (el * qz) >= (mz * s32) * (mz * s32) - 2 * el * (mz * s32))
        by (nonlinear_arith)
        requires
            mz * s32 == el * qz + (mz * s32) % el,
            0 <= (mz * s32) % el < el,
            el > 0,
            mz >= 0,
            s32 > 0,
    ;
    let sqs = mx * mx + my * my + mz * mz;
    assert((el * el) * (qx * qx) >= (s32 * s32) * (mx * mx) - 2 * ((el * s32) * mx))
        by (nonlinear_arith)
        requires
            (el * qx) * (el * qx) >= (mx * s32) * (mx * s32) - 2 * el * (mx * s32),
    ;
    assert((el * el) * (qy * qy) >= (s32 * s32) * (my * my) - 2 * ((el * s32) * my))
        by (nonlinear_arith)
        requires
            (el * qy) * (el * qy) >= (my * s32) * (my * s32) - 2 * el * (my * s32),
    ;
    assert((el * el) * (qz * qz) >= (s32 * s32) * (mz * mz) - 2 * ((el * s32) * mz))
        by (nonlinear_arith)
        requires
            (el * qz) * (el * qz) >= (mz * s32) * (mz * s32) - 2 * el * (mz * s32),
    ;
    assert((el * el) * qsum == (el * el) * (qx * qx) + (el * el) * (qy * qy) + (el * el) * (qz
        * qz)) by (nonlinear_arith)
        requires
            qsum == qx * qx + qy * qy + qz * qz,
    ;
    assert((s32 * s32) * sqs == (s32 * s32) * (mx * mx) + (s32 * s32) * (my * my) + (s32 * s32)
        * (mz * mz)) by (nonlinear_arith)
        requires
            sqs == mx * mx + my * my + mz * mz,
    ;
    assert((el * s32) * msum == (el * s32) * mx + (el * s32) * my + (el * s32) * mz)
        by (nonlinear_arith)
        requires
            msum == mx + my + mz,
    ;
    assert((el * el) * qsum >= (s32 * s32) * sqs - 2 * ((el * s32) * msum));
    assert(sqs >= el * el);
    assert((s32 * s32) * sqs >= (s32 * s32) * (el * el)) by (nonlinear_arith)
        requires
            sqs >= el * el,
            s32 == 4294967296,
    ;
    assert(2 * ((el * s32) * msum) <= 4 * s32 * (el * el) + 8 * (s32 * el))
        by (nonlinear_arith)
        requires
            0 <= msum <= 2 * el + 4,
            s32 <= el,
            s32 == 4294967296,
    ;
    assert((el * el) * qsum >= (s32 * s32) * (el * el) - 4 * s32 * (el * el) - 8 * (s32 * el));
    assert(qsum >= s32 * s32 - 4 * s32 - 8) by (nonlinear_arith)
        requires
            (el * el) * qsum >= (s32 * s32) * (el * el) - 4 * s32 * (el * el) - 8 * (s32 * el),
            s32 <= el,
            s32 == 4294967296,
    ;
    vstd::arithmetic::div_mod::lemma_fundamental_div_mod(qx * qx, s32);
    vstd::arithmetic::div_mod::lemma_fundamental_div_mod(qy * qy, s32);
    vstd::arithmetic::div_mod::lemma_fundamental_div_mod(qz * qz, s32);
    vstd::arithmetic::div_mod::lemma_mod_bound(qx * qx, s32);
    vstd::arithmetic::div_mod::lemma_mod_bound(qy * qy, s32);
    vstd::arithmetic::div_mod::lemma_mod_bound(qz * qz, s32);
    assert(s32 * (lensq_u as int) >= qsum - 3 * s32) by (nonlinear_arith)
        requires
            qx * qx == s32 * ((qx * qx) / s32) + (qx * qx) % s32,
            qy * qy == s32 * ((qy * qy) / s32) + (qy * qy) % s32,
            qz * qz == s32 * ((qz * qz) / s32) + (qz * qz) % s32,
            (qx * qx) % s32 < s32 && (qy * qy) % s32 < s32 && (qz * qz) % s32 < s32,
            lensq_u == (qx * qx) / s32 + (qy * qy) / s32 + (qz * qz) / s32,
            qsum == qx * qx + qy * qy + qz * qz,
    ;
    assert(lensq_u >= s32 - 7) by (nonlinear_arith)
        requires
            s32 * (lensq_u as int) >= qsum - 3 * s32,
            qsum >= s32 * s32 - 4 * s32 - 8,
            s32 == 4294967296,
    ;
    assert((root_u + 1) * (root_u + 1) > nu);
    assert(nu >= ((s32 - 7) * s32) as nat) by (nonlinear_arith)
        requires
            nu == ((lensq_u as int) * s32) as nat,
            lensq_u >= s32 - 7,
            s32 == 4294967296,
    ;
    assert(root_u >= s32 - 4) by (nonlinear_arith)
        requires
            (root_u + 1) * (root_u + 1) > nu,
            nu >= ((s32 - 7) * s32) as nat,
            root_u >= 0,
            s32 == 4294967296,
    ;
}

/// The fixed-point square of any scalar is nonnegative.
pub proof fn lemma_square_nonneg(a: i64)
    ensures
        fx_mul_spec(a, a) >= 0,
{
    assert((a as int) * (a as int) >= 0) by (nonlinear_arith);
    let p = (a as int) * (a as int);
    if p >= 0 {
        assert(scale_down(p, FX_ONE as int) == p / (FX_ONE as int));
        assert(p / (FX_ONE as int) >= 0) by (nonlinear_arith)
            requires
                p >= 0,
        ;
    }
}

/// A vector's dot product with itself is nonnegative.
pub proof fn lemma_dot_self_nonneg(v: Vec3)
    ensures
        v.dot_spec(v) >= 0,
{
    lemma_square_nonneg(v.x);
    lemma_square_nonneg(v.y);
    lemma_square_nonneg(v.z);
}

} // verus!
