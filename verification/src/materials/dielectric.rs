//! Transmissive scattering with Fresnel-weighted reflect/refract choice.

use vstd::prelude::*;

use crate::color::Color;
use crate::fx::clip;
use crate::fx::fx_abs;
use crate::fx::fx_add;
use crate::fx::fx_add_spec;
use crate::fx::fx_div;
use crate::fx::fx_div_spec;
use crate::fx::fx_min;
use crate::fx::fx_mul;
use crate::fx::fx_mul_spec;
use crate::fx::fx_sqrt;
use crate::fx::fx_sqrt_spec;
use crate::fx::fx_sub;
use crate::fx::fx_sub_spec;
use crate::fx::mag;
use crate::fx::FX_ONE;
use crate::hittable::Hit;
use crate::ray::Ray;
use crate::rng::rng_next_state;
use crate::rng::rng_output;
use crate::rng::unit_from;
use crate::rng::Rng;
use crate::vec3::Vec3;

verus! {

/// A clear material that refracts or reflects at its boundary.
#[derive(Clone, Copy, PartialEq, Eq, Structural, Debug)]
pub struct Dielectric {
    pub refraction_index: i64,
}

/// Schlick's approximation of the Fresnel reflectance:
/// `r0 + (1 - r0) * (1 - cos)^5` with `r0 = ((1 - ri) / (1 + ri))^2`.
pub open spec fn reflectance_spec(cosine: i64, refraction_index: i64) -> i64
    recommends
        refraction_index >= 0,
{
    let r0 = fx_div_spec(
        fx_sub_spec(FX_ONE, refraction_index),
        fx_add_spec(FX_ONE, refraction_index),
    );
    let r0sq = fx_mul_spec(r0, r0);
    let omc = fx_sub_spec(FX_ONE, cosine);
    let omc5 = fx_mul_spec(fx_mul_spec(fx_mul_spec(fx_mul_spec(omc, omc), omc), omc), omc);
    fx_add_spec(r0sq, fx_mul_spec(fx_sub_spec(FX_ONE, r0sq), omc5))
}

/// Exec counterpart of `reflectance_spec`.
fn reflectance(cosine: i64, refraction_index: i64) -> (r: i64)
    requires
        refraction_index >= 0,
    ensures
        r == reflectance_spec(cosine, refraction_index),
{
    let r0 = fx_div(
        fx_sub(FX_ONE, refraction_index),
        fx_add(FX_ONE, refraction_index),
    );
    let r0sq = fx_mul(r0, r0);
    let omc = fx_sub(FX_ONE, cosine);
    let omc5 = fx_mul(fx_mul(fx_mul(fx_mul(omc, omc), omc), omc), omc);
    fx_add(r0sq, fx_mul(fx_sub(FX_ONE, r0sq), omc5))
}

impl Dielectric {
    pub open spec fn wf(self) -> bool {
        self.refraction_index > 0
    }

    /// The unit incoming direction; a degenerate (zero-length) direction
    /// falls back to heading straight into the surface.
    pub open spec fn unit_in_spec(r: Ray, hit: Hit) -> Vec3 {
        if r.dir.length_spec() > 0 {
            r.dir.unit_spec()
        } else {
            hit.normal.neg_spec()
        }
    }

    /// Scattering always succeeds with white attenuation; the direction is
    /// a pure reflection under total internal reflection or a Schlick draw,
    /// and a Snell refraction otherwise.  The random draw happens only when
    /// refraction is geometrically possible.
    pub open spec fn scatter_spec(self, r: Ray, hit: Hit, s: u64) -> (Option<(Ray, Color)>, u64) {
        let ri = if hit.front_face {
            fx_div_spec(FX_ONE, self.refraction_index)
        } else {
            self.refraction_index
        };
        let unit = Dielectric::unit_in_spec(r, hit);
        let cos_theta = if unit.neg_spec().dot_spec(hit.normal) <= FX_ONE {
            unit.neg_spec().dot_spec(hit.normal)
        } else {
            FX_ONE
        };
        let sin_theta = fx_sqrt_spec(
            clip(mag(fx_sub_spec(FX_ONE, fx_mul_spec(cos_theta, cos_theta)) as int)) as i64,
        );
        let white = crate::color::white_spec();
        if fx_mul_spec(ri, sin_theta) > FX_ONE {
            let dir = unit.reflect_spec(hit.normal);
            (Some((Ray { origin: hit.p, dir, tm: r.tm }, white)), s)
        } else {
            let draw = unit_from(rng_output(s));
            let s1 = rng_next_state(s);
            let dir = if reflectance_spec(cos_theta, ri) > draw {
                unit.reflect_spec(hit.normal)
            } else {
                unit.refract_spec(hit.normal, ri)
            };
            (Some((Ray { origin: hit.p, dir, tm: r.tm }, white)), s1)
        }
    }

    /// With a refraction-index ratio of one the boundary is optically
    /// absent: at normal incidence against any axis-aligned unit normal
    /// the refracted direction equals the incident direction exactly.
    /// (At oblique angles the same holds up to representation rounding,
    /// which the fixed-point model cannot state as an equality.)
    pub proof fn lemma_unit_ratio_goes_straight(n: Vec3)
        requires
            (crate::fx::mag(n.x as int) == FX_ONE && n.y == 0 && n.z == 0) || (n.x == 0
                && crate::fx::mag(n.y as int) == FX_ONE && n.z == 0) || (n.x == 0 && n.y == 0
                && crate::fx::mag(n.z as int) == FX_ONE),
        ensures
            (n.neg_spec()).refract_spec(n, FX_ONE) == n.neg_spec(),
    {
        let s32 = 4294967296int;
        assert(s32 * s32 == 4294967296 * 4294967296 && (-s32) * (-s32) == s32 * s32 && (-s32)
            * s32 == -(s32 * s32) && s32 * (-s32) == -(s32 * s32)) by (nonlinear_arith)
            requires
                s32 == 4294967296,
        ;
        vstd::arithmetic::div_mod::lemma_div_multiples_vanish(s32, s32);
        assert((4294967296 * 4294967296) as nat == 18446744073709551616nat) by (nonlinear_arith);
        assert(4294967296nat * 4294967296nat == 18446744073709551616nat) by (nonlinear_arith);
        assert(4294967297nat * 4294967297nat > 18446744073709551616nat) by (nonlinear_arith);
        crate::fx::lemma_sqrt_floor_unique(18446744073709551616nat, 4294967296nat);
        let uv = n.neg_spec();
        let cos_theta = uv.neg_spec().dot_spec(n);
        assert(uv.neg_spec() == n);
        assert(cos_theta == FX_ONE);
        let inner = n.scale_spec(cos_theta);
        assert(inner == n);
        let perp0 = uv.add_spec(inner);
        assert(perp0 == (Vec3 { x: 0i64, y: 0i64, z: 0i64 }));
        let perp = perp0.scale_spec(FX_ONE);
        assert(perp == perp0);
        assert(perp.length_squared_spec() == 0);
        assert(crate::fx::fx_sqrt_spec(
            crate::fx::clip(mag(fx_sub_spec(FX_ONE, perp.length_squared_spec()) as int)) as i64,
        ) == FX_ONE);
        let par = n.scale_spec(crate::fx::fx_neg_spec(FX_ONE));
        assert(par == uv);
        assert(perp.add_spec(par) == uv);
    }

    pub fn new(refraction_index: i64) -> (m: Dielectric)
        ensures
            m == (Dielectric { refraction_index }),
    {
        Dielectric { refraction_index }
    }

    pub fn scatter(&self, r: &Ray, hit: &Hit, rng: &mut Rng) -> (res: Option<(Ray, Color)>)
        requires
            self.wf(),
        ensures
            (res, final(rng).state) == self.scatter_spec(*r, *hit, old(rng).state),
            res is Some,
            (res->0).1 == crate::color::white_spec(),
            (res->0).0.origin == hit.p,
            (res->0).0.tm == r.tm,
    {
        let color = Color::white();
        let ri = if hit.front_face {
            fx_div(FX_ONE, self.refraction_index)
        } else {
            self.refraction_index
        };
        let len = r.direction().length();
        let unit_direction = if len > 0 {
            r.direction().unit_vector()
        } else {
            hit.normal.neg()
        };
        let cos_theta = fx_min(unit_direction.neg().dot(&hit.normal), FX_ONE);
        let sin_theta = fx_sqrt(fx_abs(fx_sub(FX_ONE, fx_mul(cos_theta, cos_theta))));
        let cannot_refract = fx_mul(ri, sin_theta) > FX_ONE;

        let direction = if cannot_refract {
            unit_direction.reflect(&hit.normal)
        } else {
            let draw = rng.next_unit();
            if reflectance(cos_theta, ri) > draw {
                unit_direction.reflect(&hit.normal)
            } else {
                unit_direction.refract(&hit.normal, ri)
            }
        };

        let scattered = Ray::new(hit.p, direction, r.tm());
        Some((scattered, color))
    }
}

impl crate::materials::Material for Dielectric {
    open spec fn scatter_req(&self) -> bool {
        self.wf()
    }

    open spec fn scatter_model(&self, r: Ray, hit: Hit, s: u64) -> (Option<(Ray, Color)>, u64) {
        self.scatter_spec(r, hit, s)
    }

    fn scatter(&self, r: &Ray, hit: &Hit, rng: &mut Rng) -> (res: Option<(Ray, Color)>) {
        Dielectric::scatter(self, r, hit, rng)
    }
}

} // verus!
