//! The record an intersection test produces.

use vstd::prelude::*;

use crate::materials::Materials;
use crate::ray::Ray;
use crate::vec3::Point3D;
use crate::vec3::Vec3;

verus! {

/// Something a ray can intersect.  Each implementor brings its own
/// model of the intersection (`hit_model`) and its own well-formedness
/// demand (`hit_req`), and its `hit` must return exactly the model.
pub trait Hittable: Sized {
    /// What the implementor asks of itself before intersecting.
    spec fn hit_req(&self) -> bool;

    /// The intersection the implementor promises to report.
    spec fn hit_model(&self, r: Ray) -> Option<Hit>;

    /// The nearest admissible intersection with the ray, if any.
    fn hit(&self, r: &Ray) -> (res: Option<Hit>)
        requires
            self.hit_req(),
        ensures
            res == self.hit_model(*r),
    ;
}

/// Where a ray met a surface: contact point, normal oriented against the
/// ray, the material there, which face was struck, and the ray parameter.
#[derive(Clone, Copy, PartialEq, Eq, Structural, Debug)]
pub struct Hit {
    pub p: Point3D,
    pub normal: Vec3,
    pub mat: Materials,
    pub front_face: bool,
    pub t: i64,
}

impl Hit {
    /// The record built from an outward normal: the stored normal is the
    /// outward one flipped onto the side the ray came from.
    pub open spec fn make_spec(r: Ray, p: Point3D, outward: Vec3, mat: Materials, t: i64) -> Hit {
        let front_face = r.dir.dot_spec(outward) < 0;
        Hit {
            p,
            normal: if front_face {
                outward
            } else {
                outward.neg_spec()
            },
            mat,
            front_face,
            t,
        }
    }

    pub fn new(r: &Ray, p: Point3D, normal: Vec3, mat: Materials, t: i64) -> (h: Hit)
        ensures
            h == Hit::make_spec(*r, p, normal, mat, t),
    {
        let front_face = r.direction().dot(&normal) < 0;
        let normal = if front_face {
            normal
        } else {
            normal.neg()
        };
        Hit { mat, p, normal, front_face, t }
    }
}

} // verus!
