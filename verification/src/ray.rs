//! Rays: a parametrized half-line with a shutter-time stamp.

use vstd::prelude::*;

use crate::vec3::Point3D;
use crate::vec3::Vec3;

verus! {

/// An immutable ray `origin + t * dir`, tagged with a time in [0, 1]
/// along the shutter interval, used for motion blur.
#[derive(Clone, Copy, PartialEq, Eq, Structural, Debug)]
pub struct Ray {
    pub origin: Point3D,
    pub dir: Vec3,
    pub tm: i64,
}

impl Ray {
    /// The point reached after parameter t.
    pub open spec fn at_spec(self, t: i64) -> Vec3 {
        self.origin.add_spec(self.dir.scale_spec(t))
    }

    pub fn new(origin: Point3D, dir: Vec3, tm: i64) -> (r: Ray)
        ensures
            r == (Ray { origin, dir, tm }),
    {
        Ray { origin, dir, tm }
    }

    pub fn origin(&self) -> (r: Point3D)
        ensures
            r == self.origin,
    {
        self.origin
    }

    pub fn direction(&self) -> (r: Vec3)
        ensures
            r == self.dir,
    {
        self.dir
    }

    pub fn at(&self, t: i64) -> (r: Vec3)
        ensures
            r == self.at_spec(t),
    {
        self.origin.add(self.dir.scale(t))
    }

    pub fn tm(&self) -> (r: i64)
        ensures
            r == self.tm,
    {
        self.tm
    }
}

} // verus!
