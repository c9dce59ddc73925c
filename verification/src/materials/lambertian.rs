//! Diffuse (Lambertian) scattering.

use vstd::prelude::*;

use crate::color::Color;
use crate::hittable::Hit;
use crate::ray::Ray;
use crate::rng::random_unit_spec;
use crate::rng::random_unit_vector;
use crate::rng::Rng;
use crate::rng::SAMPLE_ATTEMPTS;

verus! {

/// A diffuse material: scatters everywhere, attenuated by its albedo.
#[derive(Clone, Copy, PartialEq, Eq, Structural, Debug)]
pub struct Lambertian {
    pub color: Color,
}

impl Lambertian {
    pub open spec fn wf(self) -> bool {
        self.color.valid()
    }

    /// Scattering always succeeds: the new direction is the surface normal
    /// plus a random unit vector, or the normal alone if that sum is
    /// degenerate; the attenuation is the albedo; the origin is the hit
    /// point; the time is carried over from the incoming ray.
    pub open spec fn scatter_spec(self, r: Ray, hit: Hit, s: u64) -> (Option<(Ray, Color)>, u64) {
        let drawn = random_unit_spec(s, SAMPLE_ATTEMPTS as nat);
        let candidate = hit.normal.add_spec(drawn.0);
        let dir = if candidate.near_zero_spec() {
            hit.normal
        } else {
            candidate
        };
        (Some((Ray { origin: hit.p, dir, tm: r.tm }, self.color)), drawn.1)
    }

    pub fn new(color: Color) -> (m: Lambertian)
        ensures
            m == (Lambertian { color }),
    {
        Lambertian { color }
    }

    pub fn scatter(&self, r: &Ray, hit: &Hit, rng: &mut Rng) -> (res: Option<(Ray, Color)>)
        requires
            self.wf(),
        ensures
            (res, final(rng).state) == self.scatter_spec(*r, *hit, old(rng).state),
            res is Some,
            (res->0).1 == self.color,
            (res->0).0.origin == hit.p,
            (res->0).0.tm == r.tm,
    {
        let drawn = random_unit_vector(rng);
        let candidate = hit.normal.add(drawn);
        let scatter_direction = if candidate.near_zero() {
            hit.normal
        } else {
            candidate
        };
        let scattered = Ray::new(hit.p, scatter_direction, r.tm());
        Some((scattered, self.color))
    }
}

impl crate::materials::Material for Lambertian {
    open spec fn scatter_req(&self) -> bool {
        self.wf()
    }

    open spec fn scatter_model(&self, r: Ray, hit: Hit, s: u64) -> (Option<(Ray, Color)>, u64) {
        self.scatter_spec(r, hit, s)
    }

    fn scatter(&self, r: &Ray, hit: &Hit, rng: &mut Rng) -> (res: Option<(Ray, Color)>) {
        Lambertian::scatter(self, r, hit, rng)
    }
}

} // verus!
