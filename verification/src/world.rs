//! The scene: an insertion-ordered sequence of primitives.

use vstd::prelude::*;

use crate::hittable::Hit;
use crate::hittable::Hittable;
use crate::ray::Ray;
use crate::shapes::Shape;

verus! {

/// One fold step of the linear scan: keep the incumbent unless the new
/// shape is hit strictly nearer, so the earliest shape wins ties.
pub open spec fn hit_fold(acc: Option<Hit>, s: Shape, r: Ray) -> Option<Hit> {
    match s.hit_spec(r) {
        Some(h) => match acc {
            Some(b) => if h.t < b.t {
                Some(h)
            } else {
                Some(b)
            },
            None => Some(h),
        },
        None => acc,
    }
}

/// The nearest hit among the first n shapes, folding left to right.
pub open spec fn world_hit_upto(shapes: Seq<Shape>, r: Ray, n: nat) -> Option<Hit>
    recommends
        n <= shapes.len(),
    decreases n,
{
    if n == 0 {
        None
    } else {
        hit_fold(world_hit_upto(shapes, r, (n - 1) as nat), shapes[n - 1], r)
    }
}

/// The globally nearest hit over the whole scene.
pub open spec fn world_hit_spec(shapes: Seq<Shape>, r: Ray) -> Option<Hit> {
    world_hit_upto(shapes, r, shapes.len())
}

/// The scene; built once, read-only while rendering.
#[derive(Debug)]
pub struct World {
    pub shapes: Vec<Shape>,
}

impl World {
    /// Every shape is well-formed.
    pub open spec fn wf(self) -> bool {
        forall|i: int| 0 <= i < self.shapes@.len() ==> #[trigger] self.shapes@[i].wf()
    }

    pub fn new() -> (w: World)
        ensures
            w.shapes@ =~= Seq::<Shape>::empty(),
            w.wf(),
    {
        World { shapes: Vec::new() }
    }

    pub fn add_shape(&mut self, s: Shape)
        ensures
            final(self).shapes@ =~= old(self).shapes@.push(s),
    {
        self.shapes.push(s);
    }

    pub fn add_shapes(&mut self, shapes: Vec<Shape>)
        ensures
            final(self).shapes@ =~= old(self).shapes@ + shapes@,
    {
        let n = shapes.len();
        let mut i: usize = 0;
        while i < n
            invariant
                i <= n,
                n == shapes@.len(),
                self.shapes@ =~= old(self).shapes@ + shapes@.take(i as int),
            decreases n - i,
        {
            self.shapes.push(shapes[i]);
            i = i + 1;
        }
        proof {
            assert(shapes@.take(n as int) =~= shapes@);
        }
    }

    /// The hit nearest along the ray, scanning every shape; the earliest
    /// inserted shape wins when two hits share the same parameter.
    pub fn hit(&self, r: &Ray) -> (res: Option<Hit>)
        requires
            self.wf(),
        ensures
            res == world_hit_spec(self.shapes@, *r),
            res is Some ==> (res->0).mat.wf(),
            res is Some ==> (res->0).t >= crate::shapes::FX_T_MIN,
    {
        scan_shapes(&self.shapes, r)
    }
}

/// A borrowed, read-only view of a scene's shapes, cheap to hand to every
/// rendering worker.
pub struct SharedWorld<'a> {
    pub shapes: &'a Vec<Shape>,
}

impl<'a> SharedWorld<'a> {
    pub open spec fn wf(self) -> bool {
        forall|i: int| 0 <= i < self.shapes@.len() ==> #[trigger] self.shapes@[i].wf()
    }

    /// The hit nearest along the ray, as for the owning scene.
    pub fn hit(&self, r: &Ray) -> (res: Option<Hit>)
        requires
            self.wf(),
        ensures
            res == world_hit_spec(self.shapes@, *r),
            res is Some ==> (res->0).mat.wf(),
            res is Some ==> (res->0).t >= crate::shapes::FX_T_MIN,
    {
        scan_shapes(self.shapes, r)
    }
}

impl<'a> From<&'a World> for SharedWorld<'a> {
    fn from(value: &'a World) -> (r: SharedWorld<'a>) {
        SharedWorld { shapes: &value.shapes }
    }
}

impl<'a> vstd::std_specs::convert::FromSpecImpl<&'a World> for SharedWorld<'a> {
    open spec fn obeys_from_spec() -> bool {
        true
    }

    open spec fn from_spec(value: &'a World) -> SharedWorld<'a> {
        SharedWorld { shapes: &value.shapes }
    }
}

/// Scan a shape list left to right, keeping the strictly nearest hit.
fn scan_shapes(shapes: &Vec<Shape>, r: &Ray) -> (res: Option<Hit>)
    requires
        forall|i: int| 0 <= i < shapes@.len() ==> #[trigger] shapes@[i].wf(),
    ensures
        res == world_hit_spec(shapes@, *r),
        res is Some ==> (res->0).mat.wf(),
        res is Some ==> (res->0).t >= crate::shapes::FX_T_MIN,
{
    let n = shapes.len();
    let mut best: Option<Hit> = None;
    let mut i: usize = 0;
    while i < n
        invariant
            i <= n,
            n == shapes@.len(),
            forall|j: int| 0 <= j < shapes@.len() ==> #[trigger] shapes@[j].wf(),
            best == world_hit_upto(shapes@, *r, i as nat),
            best is Some ==> (best->0).mat.wf(),
            best is Some ==> (best->0).t >= crate::shapes::FX_T_MIN,
        decreases n - i,
    {
        let cur = shapes[i].hit(r);
        proof {
            assert(shapes@[i as int].wf());
        }
        match cur {
            Some(h) => {
                proof {
                    lemma_shape_hit_mat_wf(shapes@[i as int], *r);
                }
                match best {
                    Some(b) => {
                        if h.t < b.t {
                            best = Some(h);
                        }
                    },
                    None => {
                        best = Some(h);
                    },
                }
            },
            None => {},
        }
        i = i + 1;
    }
    best
}

impl Hittable for World {
    open spec fn hit_req(&self) -> bool {
        self.wf()
    }

    open spec fn hit_model(&self, r: Ray) -> Option<Hit> {
        world_hit_spec(self.shapes@, r)
    }

    fn hit(&self, r: &Ray) -> (res: Option<Hit>) {
        World::hit(self, r)
    }
}

impl<'a> Hittable for SharedWorld<'a> {
    open spec fn hit_req(&self) -> bool {
        self.wf()
    }

    open spec fn hit_model(&self, r: Ray) -> Option<Hit> {
        world_hit_spec(self.shapes@, r)
    }

    fn hit(&self, r: &Ray) -> (res: Option<Hit>) {
        SharedWorld::hit(self, r)
    }
}

proof fn lemma_upto_nearest(shapes: Seq<Shape>, r: Ray, i: int, n: nat)
    requires
        0 <= i < n <= shapes.len(),
        shapes[i].hit_spec(r) is Some,
    ensures
        world_hit_upto(shapes, r, n) is Some,
        (world_hit_upto(shapes, r, n)->0).t <= (shapes[i].hit_spec(r)->0).t,
    decreases n,
{
    if n == i + 1 {
    } else {
        lemma_upto_nearest(shapes, r, i, (n - 1) as nat);
    }
}

/// The linear scan resolves the globally nearest hit: whenever any single
/// shape is hit by the ray, the scene reports a hit, and its parameter is
/// no larger than that shape's own hit parameter.
pub proof fn lemma_world_hit_nearest(shapes: Seq<Shape>, r: Ray, i: int)
    requires
        0 <= i < shapes.len(),
        shapes[i].hit_spec(r) is Some,
    ensures
        world_hit_spec(shapes, r) is Some,
        (world_hit_spec(shapes, r)->0).t <= (shapes[i].hit_spec(r)->0).t,
{
    lemma_upto_nearest(shapes, r, i, shapes.len());
}

/// A hit on a well-formed shape carries a well-formed material.
proof fn lemma_shape_hit_mat_wf(s: Shape, r: Ray)
    requires
        s.wf(),
        s.hit_spec(r) is Some,
    ensures
        (s.hit_spec(r)->0).mat.wf(),
        (s.hit_spec(r)->0).t >= crate::shapes::FX_T_MIN,
{
    match s {
        Shape::Sphere(sp) => {
        },
    }
}

impl Default for World {
    fn default() -> (w: World)
        ensures
            w.shapes@ =~= Seq::<Shape>::empty(),
            w.wf(),
    {
        World::new()
    }
}

} // verus!
