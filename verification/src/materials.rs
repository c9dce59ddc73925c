//! The closed set of materials and their scattering dispatch.

mod dielectric;
mod lambertian;
mod metal;

use vstd::prelude::*;

pub use dielectric::Dielectric;
pub use lambertian::Lambertian;
pub use metal::Metal;

use crate::color::Color;
use crate::hittable::Hit;
use crate::ray::Ray;
use crate::rng::Rng;

verus! {

/// Polymorphic scattering: an implementor brings its own model of what
/// scattering returns (`scatter_model`) and what it asks of its physical
/// parameters (`scatter_req`), and its `scatter` must follow the model
/// exactly, random state included.
pub trait Material: Sized {
    /// Sanity of the physical parameters.
    spec fn scatter_req(&self) -> bool;

    /// What scattering returns, and the random state it leaves behind.
    spec fn scatter_model(&self, r: Ray, hit: Hit, s: u64) -> (Option<(Ray, Color)>, u64);

    /// Scatter the incoming ray at the hit, or absorb it.
    fn scatter(&self, r: &Ray, hit: &Hit, rng: &mut Rng) -> (res: Option<(Ray, Color)>)
        requires
            self.scatter_req(),
        ensures
            (res, final(rng).state) == self.scatter_model(*r, *hit, old(rng).state),
    ;
}

/// A material: diffuse, reflective with roughness, or transmissive.
#[derive(Clone, Copy, PartialEq, Eq, Structural, Debug)]
pub enum Materials {
    Metal(Metal),
    Lambertian(Lambertian),
    Dielectric(Dielectric),
}

impl Materials {
    /// The physical parameters make sense: colors in range, fuzz in [0, 1],
    /// a positive refraction index.
    pub open spec fn wf(self) -> bool {
        match self {
            Materials::Metal(m) => m.wf(),
            Materials::Lambertian(l) => l.wf(),
            Materials::Dielectric(d) => d.wf(),
        }
    }

    /// What scattering returns, and the random state it leaves behind.
    pub open spec fn scatter_spec(self, r: Ray, hit: Hit, s: u64) -> (Option<(Ray, Color)>, u64) {
        match self {
            Materials::Metal(m) => m.scatter_spec(r, hit, s),
            Materials::Lambertian(l) => l.scatter_spec(r, hit, s),
            Materials::Dielectric(d) => d.scatter_spec(r, hit, s),
        }
    }

    /// Scatter the incoming ray at the hit, or absorb it.
    pub fn scatter(&self, r: &Ray, hit: &Hit, rng: &mut Rng) -> (res: Option<(Ray, Color)>)
        requires
            self.wf(),
        ensures
            (res, final(rng).state) == self.scatter_spec(*r, *hit, old(rng).state),
            res is Some ==> (res->0).1.valid(),
            res is Some ==> (res->0).0.tm == r.tm,
            res is Some ==> (res->0).0.origin == hit.p,
    {
        match self {
            Materials::Metal(m) => m.scatter(r, hit, rng),
            Materials::Lambertian(l) => l.scatter(r, hit, rng),
            Materials::Dielectric(d) => d.scatter(r, hit, rng),
        }
    }
}

impl Material for Materials {
    open spec fn scatter_req(&self) -> bool {
        self.wf()
    }

    open spec fn scatter_model(&self, r: Ray, hit: Hit, s: u64) -> (Option<(Ray, Color)>, u64) {
        self.scatter_spec(r, hit, s)
    }

    fn scatter(&self, r: &Ray, hit: &Hit, rng: &mut Rng) -> (res: Option<(Ray, Color)>) {
        Materials::scatter(self, r, hit, rng)
    }
}

impl From<Metal> for Materials {
    fn from(value: Metal) -> (r: Materials) {
        Materials::Metal(value)
    }
}

impl vstd::std_specs::convert::FromSpecImpl<Metal> for Materials {
    open spec fn obeys_from_spec() -> bool {
        true
    }

    open spec fn from_spec(value: Metal) -> Materials {
        Materials::Metal(value)
    }
}

impl From<Lambertian> for Materials {
    fn from(value: Lambertian) -> (r: Materials) {
        Materials::Lambertian(value)
    }
}

impl vstd::std_specs::convert::FromSpecImpl<Lambertian> for Materials {
    open spec fn obeys_from_spec() -> bool {
        true
    }

    open spec fn from_spec(value: Lambertian) -> Materials {
        Materials::Lambertian(value)
    }
}

impl From<Dielectric> for Materials {
    fn from(value: Dielectric) -> (r: Materials) {
        Materials::Dielectric(value)
    }
}

impl vstd::std_specs::convert::FromSpecImpl<Dielectric> for Materials {
    open spec fn obeys_from_spec() -> bool {
        true
    }

    open spec fn from_spec(value: Dielectric) -> Materials {
        Materials::Dielectric(value)
    }
}

} // verus!
