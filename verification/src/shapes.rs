//! The closed set of scene primitives.

mod sphere;

use vstd::prelude::*;

pub use sphere::Sphere;
pub use sphere::FX_T_MIN;

use crate::hittable::Hit;
use crate::hittable::Hittable;
use crate::materials::Materials;
use crate::ray::Ray;

verus! {

/// A primitive of the scene.
#[derive(Clone, Copy, PartialEq, Eq, Structural, Debug)]
pub enum Shape {
    Sphere(Sphere),
}

impl Shape {
    pub open spec fn wf(self) -> bool {
        match self {
            Shape::Sphere(s) => s.wf(),
        }
    }

    pub open spec fn hit_spec(self, r: Ray) -> Option<Hit>
        recommends
            self.wf(),
    {
        match self {
            Shape::Sphere(s) => s.hit_spec(r),
        }
    }

    /// The material a hit on this shape carries.
    pub open spec fn mat_spec(self) -> Materials {
        match self {
            Shape::Sphere(s) => s.mat,
        }
    }

    /// The nearest admissible intersection with the ray, if any.
    pub fn hit(&self, r: &Ray) -> (res: Option<Hit>)
        requires
            self.wf(),
        ensures
            res == self.hit_spec(*r),
            res is Some ==> (res->0).mat == self.mat_spec(),
            res is Some ==> (res->0).t >= FX_T_MIN,
    {
        match self {
            Shape::Sphere(s) => s.hit(r),
        }
    }
}

impl Hittable for Shape {
    open spec fn hit_req(&self) -> bool {
        self.wf()
    }

    open spec fn hit_model(&self, r: Ray) -> Option<Hit> {
        self.hit_spec(r)
    }

    fn hit(&self, r: &Ray) -> (res: Option<Hit>) {
        Shape::hit(self, r)
    }
}

impl From<Sphere> for Shape {
    fn from(value: Sphere) -> (r: Shape) {
        Shape::Sphere(value)
    }
}

impl vstd::std_specs::convert::FromSpecImpl<Sphere> for Shape {
    open spec fn obeys_from_spec() -> bool {
        true
    }

    open spec fn from_spec(value: Sphere) -> Shape {
        Shape::Sphere(value)
    }
}

} // verus!
