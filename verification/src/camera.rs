//! The camera: derived image-plane geometry and per-pixel sample rays.

use vstd::prelude::*;

use rayon::iter::IntoParallelIterator;
use rayon::iter::ParallelIterator;

use crate::fx::fx_add;
use crate::fx::fx_add_spec;
use crate::fx::fx_div;
use crate::fx::fx_div_spec;
use crate::fx::fx_from_nat_spec;
use crate::fx::fx_from_usize;
use crate::fx::fx_mul;
use crate::fx::fx_mul_spec;
use crate::fx::fx_sub;
use crate::fx::fx_sub_spec;
use crate::fx::FX_HALF;
use crate::fx::FX_ONE;
use crate::color::Color;
use crate::ray::Ray;
use crate::rng::random_in_disk_spec;
use crate::rng::random_unit_in_disk;
use crate::rng::rng_next_state;
use crate::rng::rng_output;
use crate::rng::unit_from;
use crate::rng::Rng;
use crate::rng::SAMPLE_ATTEMPTS;
use crate::shapes::Shape;
use crate::world::world_hit_spec;
use crate::world::World;
use crate::trig::deg_to_rad;
use crate::trig::deg_to_rad_spec;
use crate::trig::tan_fx;
use crate::trig::tan_spec;
use crate::vec3::Point3D;
use crate::vec3::Vec3;
use crate::vec3::FX_TWO;

verus! {

/// The camera's extrinsic parameters together with the image-plane
/// geometry derived from them.  Every mutator of a primary parameter is
/// paired with `recalculate`, so no ray is ever produced from stale
/// derived state (the `consistent` predicate).
#[derive(Clone, Copy, PartialEq, Eq, Structural, Debug)]
pub struct CameraInfo {
    pub image_height: usize,
    pub image_width: usize,
    pub camera_center: Point3D,
    pub vfov: i64,
    pub defocus_angle: i64,
    pub focus_dist: i64,
    pub look_at: Vec3,
    pub vup: Vec3,
    pub viewport_width: i64,
    pub viewport_height: i64,
    pub viewport_u: Vec3,
    pub viewport_v: Vec3,
    pub pixel_delta_u: Vec3,
    pub pixel_delta_v: Vec3,
    pub pixel00_loc: Vec3,
    pub viewport_upper_left: Vec3,
    pub u_base: Vec3,
    pub v_base: Vec3,
    pub w_base: Vec3,
    pub defocus_disk_u: Vec3,
    pub defocus_disk_v: Vec3,
}

impl CameraInfo {
    /// The image has at least one row and one column, so the per-pixel
    /// deltas are well-defined.
    pub open spec fn wf(self) -> bool {
        self.image_height >= 1 && self.image_width >= 1
    }

    /// This camera with every derived field recomputed from the primary
    /// parameters.  A degenerate view direction falls back to the z axis,
    /// and a view direction parallel to the up vector falls back to the
    /// x axis for the horizontal basis vector.
    pub open spec fn recalculated(self) -> CameraInfo
        recommends
            self.wf(),
    {
        let theta = deg_to_rad_spec(self.vfov);
        let h = tan_spec(fx_mul_spec(theta, FX_HALF));
        let viewport_height = fx_mul_spec(fx_mul_spec(FX_TWO, h), self.focus_dist);
        let ratio = fx_div_spec(
            fx_from_nat_spec(self.image_width as int),
            fx_from_nat_spec(self.image_height as int),
        );
        let viewport_width = fx_mul_spec(viewport_height, ratio);
        let w_dir = self.camera_center.sub_spec(self.look_at);
        let w_base = if w_dir.length_spec() > 0 {
            w_dir.unit_spec()
        } else {
            Vec3 { x: 0i64, y: 0i64, z: FX_ONE as i64 }
        };
        let u_dir = self.vup.cross_spec(w_base);
        let u_base = if u_dir.length_spec() > 0 {
            u_dir.unit_spec()
        } else {
            Vec3 { x: FX_ONE as i64, y: 0i64, z: 0i64 }
        };
        let v_base = w_base.cross_spec(u_base);
        let viewport_u = u_base.scale_spec(viewport_width);
        let viewport_v = v_base.neg_spec().scale_spec(viewport_height);
        let pixel_delta_u = viewport_u.scale_spec(
            fx_div_spec(FX_ONE, fx_from_nat_spec(self.image_width as int)),
        );
        let pixel_delta_v = viewport_v.scale_spec(
            fx_div_spec(FX_ONE, fx_from_nat_spec(self.image_height as int)),
        );
        let viewport_upper_left = self.camera_center.sub_spec(
            w_base.scale_spec(self.focus_dist),
        ).sub_spec(viewport_u.scale_spec(FX_HALF)).sub_spec(viewport_v.scale_spec(FX_HALF));
        let pixel00_loc = viewport_upper_left.add_spec(
            pixel_delta_u.add_spec(pixel_delta_v).scale_spec(FX_HALF),
        );
        let defocus_radius = fx_mul_spec(
            self.focus_dist,
            tan_spec(deg_to_rad_spec(fx_mul_spec(self.defocus_angle, FX_HALF))),
        );
        let defocus_disk_u = u_base.scale_spec(defocus_radius);
        let defocus_disk_v = v_base.scale_spec(defocus_radius);
        CameraInfo {
            viewport_width,
            viewport_height,
            viewport_u,
            viewport_v,
            pixel_delta_u,
            pixel_delta_v,
            pixel00_loc,
            viewport_upper_left,
            u_base,
            v_base,
            w_base,
            defocus_disk_u,
            defocus_disk_v,
            ..self
        }
    }

    /// Derived state agrees with the primary parameters.
    pub open spec fn consistent(self) -> bool {
        self == self.recalculated()
    }

    /// Recompute every derived field from the primary parameters.
    pub fn recalculate(&mut self)
        requires
            old(self).wf(),
        ensures
            *final(self) == old(self).recalculated(),
            final(self).consistent(),
            final(self).wf(),
    {
        let theta = deg_to_rad(self.vfov);
        let h = tan_fx(fx_mul(theta, FX_HALF));
        let viewport_height = fx_mul(fx_mul(FX_TWO, h), self.focus_dist);
        let wfx = fx_from_usize(self.image_width);
        let hfx = fx_from_usize(self.image_height);
        let ratio = fx_div(wfx, hfx);
        let viewport_width = fx_mul(viewport_height, ratio);
        let w_dir = self.camera_center.sub(self.look_at);
        let w_len = w_dir.length();
        let w_base = if w_len > 0 {
            w_dir.unit_vector()
        } else {
            Vec3 { x: 0, y: 0, z: FX_ONE }
        };
        let u_dir = self.vup.cross(&w_base);
        let u_len = u_dir.length();
        let u_base = if u_len > 0 {
            u_dir.unit_vector()
        } else {
            Vec3 { x: FX_ONE, y: 0, z: 0 }
        };
        let v_base = w_base.cross(&u_base);
        let viewport_u = u_base.scale(viewport_width);
        let viewport_v = v_base.neg().scale(viewport_height);
        let pixel_delta_u = viewport_u.scale(fx_div(FX_ONE, wfx));
        let pixel_delta_v = viewport_v.scale(fx_div(FX_ONE, hfx));
        let viewport_upper_left = self.camera_center.sub(w_base.scale(self.focus_dist)).sub(
            viewport_u.scale(FX_HALF),
        ).sub(viewport_v.scale(FX_HALF));
        let pixel00_loc = viewport_upper_left.add(
            pixel_delta_u.add(pixel_delta_v).scale(FX_HALF),
        );
        let defocus_radius = fx_mul(
            self.focus_dist,
            tan_fx(deg_to_rad(fx_mul(self.defocus_angle, FX_HALF))),
        );
        let defocus_disk_u = u_base.scale(defocus_radius);
        let defocus_disk_v = v_base.scale(defocus_radius);
        self.viewport_width = viewport_width;
        self.viewport_height = viewport_height;
        self.viewport_u = viewport_u;
        self.viewport_v = viewport_v;
        self.pixel_delta_u = pixel_delta_u;
        self.pixel_delta_v = pixel_delta_v;
        self.pixel00_loc = pixel00_loc;
        self.viewport_upper_left = viewport_upper_left;
        self.u_base = u_base;
        self.v_base = v_base;
        self.w_base = w_base;
        self.defocus_disk_u = defocus_disk_u;
        self.defocus_disk_v = defocus_disk_v;
    }

    fn private_new(
        image_height: usize,
        image_width: usize,
        look_from: Vec3,
        look_at: Vec3,
        vfov: i64,
        focus_dist: i64,
        defocus_angle: i64,
    ) -> (c: CameraInfo)
        requires
            image_height >= 1,
            image_width >= 1,
        ensures
            c == (CameraInfo {
                image_height,
                image_width,
                camera_center: look_from,
                vfov,
                defocus_angle,
                focus_dist,
                look_at,
                vup: Vec3 { x: 0i64, y: FX_ONE as i64, z: 0i64 },
                viewport_width: 0i64,
                viewport_height: 0i64,
                viewport_u: Vec3 { x: 0i64, y: 0i64, z: 0i64 },
                viewport_v: Vec3 { x: 0i64, y: 0i64, z: 0i64 },
                pixel_delta_u: Vec3 { x: 0i64, y: 0i64, z: 0i64 },
                pixel_delta_v: Vec3 { x: 0i64, y: 0i64, z: 0i64 },
                pixel00_loc: Vec3 { x: 0i64, y: 0i64, z: 0i64 },
                viewport_upper_left: Vec3 { x: 0i64, y: 0i64, z: 0i64 },
                u_base: Vec3 { x: 0i64, y: 0i64, z: 0i64 },
                v_base: Vec3 { x: 0i64, y: 0i64, z: 0i64 },
                w_base: Vec3 { x: 0i64, y: 0i64, z: 0i64 },
                defocus_disk_u: Vec3 { x: 0i64, y: 0i64, z: 0i64 },
                defocus_disk_v: Vec3 { x: 0i64, y: 0i64, z: 0i64 },
            }).recalculated(),
            c.wf(),
            c.consistent(),
    {
        let zero = Vec3 { x: 0, y: 0, z: 0 };
        let mut c = CameraInfo {
            image_height,
            image_width,
            camera_center: look_from,
            vfov,
            defocus_angle,
            focus_dist,
            look_at,
            vup: Vec3 { x: 0, y: FX_ONE, z: 0 },
            viewport_width: 0,
            viewport_height: 0,
            viewport_u: zero,
            viewport_v: zero,
            pixel_delta_u: zero,
            pixel_delta_v: zero,
            pixel00_loc: zero,
            viewport_upper_left: zero,
            u_base: zero,
            v_base: zero,
            w_base: zero,
            defocus_disk_u: zero,
            defocus_disk_v: zero,
        };
        c.recalculate();
        c
    }

    pub fn window_height(&self) -> (r: usize)
        ensures
            r == self.image_height,
    {
        self.image_height
    }

    pub fn window_width(&self) -> (r: usize)
        ensures
            r == self.image_width,
    {
        self.image_width
    }

    pub fn camera_center(&self) -> (r: Point3D)
        ensures
            r == self.camera_center,
    {
        self.camera_center
    }

    pub fn viewport_width(&self) -> (r: i64)
        ensures
            r == self.viewport_width,
    {
        self.viewport_width
    }

    pub fn viewport_height(&self) -> (r: i64)
        ensures
            r == self.viewport_height,
    {
        self.viewport_height
    }

    pub fn viewport_u(&self) -> (r: Vec3)
        ensures
            r == self.viewport_u,
    {
        self.viewport_u
    }

    pub fn viewport_v(&self) -> (r: Vec3)
        ensures
            r == self.viewport_v,
    {
        self.viewport_v
    }

    pub fn pixel_delta_u(&self) -> (r: Vec3)
        ensures
            r == self.pixel_delta_u,
    {
        self.pixel_delta_u
    }

    pub fn pixel_delta_v(&self) -> (r: Vec3)
        ensures
            r == self.pixel_delta_v,
    {
        self.pixel_delta_v
    }

    pub fn pixel00_loc(&self) -> (r: Vec3)
        ensures
            r == self.pixel00_loc,
    {
        self.pixel00_loc
    }

    pub fn viewport_upper_left(&self) -> (r: Vec3)
        ensures
            r == self.viewport_upper_left,
    {
        self.viewport_upper_left
    }

    pub fn set_camera_center(&mut self, camera_center: Point3D)
        ensures
            *final(self) == (CameraInfo { camera_center, ..*old(self) }),
    {
        self.camera_center = camera_center;
    }

    pub fn set_look_at(&mut self, look_at: Vec3)
        ensures
            *final(self) == (CameraInfo { look_at, ..*old(self) }),
    {
        self.look_at = look_at;
    }

    pub fn set_focus_dist(&mut self, focus_dist: i64)
        ensures
            *final(self) == (CameraInfo { focus_dist, ..*old(self) }),
    {
        self.focus_dist = focus_dist;
    }

    pub fn set_defocus_angle(&mut self, defocus_angle: i64)
        ensures
            *final(self) == (CameraInfo { defocus_angle, ..*old(self) }),
    {
        self.defocus_angle = defocus_angle;
    }

    pub fn set_vfov(&mut self, vfov: i64)
        ensures
            *final(self) == (CameraInfo { vfov, ..*old(self) }),
    {
        self.vfov = vfov;
    }

    pub fn set_image_height(&mut self, image_height: usize)
        requires
            image_height >= 1,
        ensures
            *final(self) == (CameraInfo { image_height, ..*old(self) }),
    {
        self.image_height = image_height;
    }

    pub fn set_image_width(&mut self, image_width: usize)
        requires
            image_width >= 1,
        ensures
            *final(self) == (CameraInfo { image_width, ..*old(self) }),
    {
        self.image_width = image_width;
    }

    /// Set the height and derive the width from the aspect ratio (a
    /// fixed-point width/height quotient), rounding to the nearest
    /// column; a width that would come out zero is raised to one.
    pub fn set_image_height_with_aspect_ratio(&mut self, window_height: usize, aspect_ratio: i64)
        requires
            window_height >= 1,
        ensures
            *final(self) == (CameraInfo {
                image_height: window_height,
                image_width: derived_extent(window_height, aspect_ratio),
                viewport_width: fx_mul_spec(old(self).viewport_height, aspect_ratio),
                ..*old(self)
            }),
    {
        self.image_height = window_height;
        self.image_width = scaled_extent(window_height, aspect_ratio);
        self.viewport_width = fx_mul(self.viewport_height, aspect_ratio);
    }

    /// Set the width and derive the height from the aspect ratio,
    /// rounding to the nearest row; a height that would come out zero is
    /// raised to one.
    pub fn set_image_width_with_aspect_ratio(&mut self, window_width: usize, aspect_ratio: i64)
        requires
            window_width >= 1,
            aspect_ratio != 0,
        ensures
            *final(self) == (CameraInfo {
                image_width: window_width,
                image_height: derived_extent(
                    window_width,
                    fx_div_spec(FX_ONE, aspect_ratio),
                ),
                ..*old(self)
            }),
    {
        self.image_width = window_width;
        self.image_height = scaled_extent(window_width, fx_div(FX_ONE, aspect_ratio));
    }
}

/// The jitter offset of one sample: uniform in [-1/2, 1/2)^2.
pub open spec fn sample_square_spec(s: u64) -> (Vec3, u64) {
    let x = fx_sub_spec(unit_from(rng_output(s)), FX_HALF);
    let s1 = rng_next_state(s);
    let y = fx_sub_spec(unit_from(rng_output(s1)), FX_HALF);
    let s2 = rng_next_state(s1);
    (Vec3 { x, y, z: 0i64 }, s2)
}

/// Draw the box-filter jitter offset for one sample.
pub fn sample_square(rng: &mut Rng) -> (r: Vec3)
    ensures
        (r, final(rng).state) == sample_square_spec(old(rng).state),
{
    let x = fx_sub(rng.next_unit(), FX_HALF);
    let y = fx_sub(rng.next_unit(), FX_HALF);
    Vec3 { x, y, z: 0 }
}

impl CameraInfo {
    /// A point on the defocus disk around the camera center.
    pub open spec fn defocus_disk_sample_spec(self, s: u64) -> (Vec3, u64) {
        let drawn = random_in_disk_spec(s, SAMPLE_ATTEMPTS as nat);
        (
            self.camera_center.add_spec(self.defocus_disk_u.scale_spec(drawn.0.x)).add_spec(
                self.defocus_disk_v.scale_spec(drawn.0.y),
            ),
            drawn.1,
        )
    }

    fn defocus_disk_sample(&self, rng: &mut Rng) -> (r: Vec3)
        ensures
            (r, final(rng).state) == self.defocus_disk_sample_spec(old(rng).state),
    {
        let p = random_unit_in_disk(rng);
        self.camera_center.add(self.defocus_disk_u.scale(p.x())).add(
            self.defocus_disk_v.scale(p.y()),
        )
    }

    /// One sample ray for pixel (w, h): the pixel center jittered within
    /// the pixel, an origin on the defocus disk when depth of field is on,
    /// and a fresh shutter time in [0, 1).
    pub open spec fn sample_ray_spec(self, w: usize, h: usize, s: u64) -> (Ray, u64) {
        let off = sample_square_spec(s);
        let pixel_center = self.pixel00_loc.add_spec(
            self.pixel_delta_u.scale_spec(fx_add_spec(fx_from_nat_spec(w as int), off.0.x)),
        ).add_spec(
            self.pixel_delta_v.scale_spec(fx_add_spec(fx_from_nat_spec(h as int), off.0.y)),
        );
        let from = if self.defocus_angle <= 0 {
            (self.camera_center, off.1)
        } else {
            self.defocus_disk_sample_spec(off.1)
        };
        let dir = pixel_center.sub_spec(from.0);
        let tm = unit_from(rng_output(from.1));
        let s_out = rng_next_state(from.1);
        (Ray { origin: from.0, dir, tm }, s_out)
    }

    pub fn get_sample_ray(&self, w: usize, h: usize, rng: &mut Rng) -> (r: Ray)
        ensures
            (r, final(rng).state) == self.sample_ray_spec(w, h, old(rng).state),
    {
        let offset = sample_square(rng);
        let pixel_center = self.pixel00_loc.add(
            self.pixel_delta_u.scale(fx_add(fx_from_usize(w), offset.x())),
        ).add(self.pixel_delta_v.scale(fx_add(fx_from_usize(h), offset.y())));
        let ray_origin = if self.defocus_angle <= 0 {
            self.camera_center
        } else {
            self.defocus_disk_sample(rng)
        };
        let ray_direction = pixel_center.sub(ray_origin);
        let tm = rng.next_unit();
        Ray { origin: ray_origin, dir: ray_direction, tm }
    }
}

/// The green channel of the sky color (0.7).
pub const FX_SKY_G: i64 = 3006477107;

/// The background gradient: blend white into sky blue by the (clamped)
/// vertical component of the unit ray direction; a degenerate direction
/// is used unnormalized and lands mid-gradient.
pub open spec fn background_spec(r: Ray) -> Vec3 {
    let unit = if r.dir.length_spec() > 0 {
        r.dir.unit_spec()
    } else {
        r.dir
    };
    let blend = fx_mul_spec(FX_HALF, fx_add_spec(unit.y, FX_ONE));
    let a = if blend < 0 {
        0i64
    } else if blend > FX_ONE {
        FX_ONE as i64
    } else {
        blend
    };
    let white = Vec3 { x: FX_ONE as i64, y: FX_ONE as i64, z: FX_ONE as i64 };
    let sky = Vec3 { x: FX_HALF as i64, y: FX_SKY_G as i64, z: FX_ONE as i64 };
    white.scale_spec(fx_sub_spec(FX_ONE, a)).add_spec(sky.scale_spec(a))
}

/// Evaluate the background gradient for a ray that hit nothing.
pub fn background(r: &Ray) -> (c: Vec3)
    ensures
        c == background_spec(*r),
        crate::color::color_in_range(c),
{
    let len = r.direction().length();
    let unit = if len > 0 {
        r.direction().unit_vector()
    } else {
        r.dir
    };
    let blend = fx_mul(FX_HALF, fx_add(unit.y(), FX_ONE));
    let a = if blend < 0 {
        0
    } else if blend > FX_ONE {
        FX_ONE
    } else {
        blend
    };
    let white = Vec3 { x: FX_ONE, y: FX_ONE, z: FX_ONE };
    let sky = Vec3 { x: FX_HALF, y: FX_SKY_G, z: FX_ONE };
    let result = white.scale(fx_sub(FX_ONE, a)).add(sky.scale(a));
    proof {
        crate::fx::lemma_fx_unit_mul(FX_ONE, fx_sub_spec(FX_ONE, a));
        crate::fx::lemma_fx_unit_mul(FX_ONE, a);
        crate::fx::lemma_fx_unit_mul(FX_HALF, a);
        crate::fx::lemma_fx_unit_mul(FX_SKY_G, a);
    }
    result
}

/// The color gathered along a ray, as a function of the scene, the bounce
/// budget and the random state: black once the budget is exhausted or a
/// hit absorbs the ray; the background when nothing is hit; otherwise the
/// scattered ray's color attenuated by the material.
pub open spec fn ray_color_spec(shapes: Seq<Shape>, r: Ray, depth: nat, s: u64) -> (Vec3, u64)
    decreases depth,
{
    if depth == 0 {
        (Vec3 { x: 0i64, y: 0i64, z: 0i64 }, s)
    } else {
        match world_hit_spec(shapes, r) {
            Some(hit) => {
                let sc = hit.mat.scatter_spec(r, hit, s);
                match sc.0 {
                    Some(pair) => {
                        let rec = ray_color_spec(shapes, pair.0, (depth - 1) as nat, sc.1);
                        (pair.1.v.mul_spec(rec.0), rec.1)
                    },
                    None => (Vec3 { x: 0i64, y: 0i64, z: 0i64 }, sc.1),
                }
            },
            None => (background_spec(r), s),
        }
    }
}

/// Trace a ray through the scene, bouncing at most `depth` times.
/// The result always lies in the color cube [0, 1]^3.
pub fn ray_color(r: Ray, depth: u32, world: &World, rng: &mut Rng) -> (c: Vec3)
    requires
        world.wf(),
    ensures
        (c, final(rng).state) == ray_color_spec(world.shapes@, r, depth as nat, old(rng).state),
        crate::color::color_in_range(c),
    decreases depth,
{
    if depth == 0 {
        return Vec3 { x: 0, y: 0, z: 0 };
    }
    match world.hit(&r) {
        Some(hit) => {
            match hit.mat.scatter(&r, &hit, rng) {
                Some((scattered, color)) => {
                    let rec = ray_color(scattered, depth - 1, world, rng);
                    let result = color.vec3().mul(rec);
                    proof {
                        crate::fx::lemma_fx_unit_mul(color.v.x, rec.x);
                        crate::fx::lemma_fx_unit_mul(color.v.y, rec.y);
                        crate::fx::lemma_fx_unit_mul(color.v.z, rec.z);
                    }
                    result
                },
                None => Vec3 { x: 0, y: 0, z: 0 },
            }
        },
        None => background(&r),
    }
}

/// The fixed bounce budget of every traced ray.
pub const MAX_DEPTH: u32 = 50;

/// The running color sum and random state after the first n samples of
/// pixel (w, h).
pub open spec fn accumulate_spec(
    shapes: Seq<Shape>,
    cam: CameraInfo,
    w: usize,
    h: usize,
    n: nat,
    s: u64,
) -> (Vec3, u64)
    decreases n,
{
    if n == 0 {
        (Vec3 { x: 0i64, y: 0i64, z: 0i64 }, s)
    } else {
        let prev = accumulate_spec(shapes, cam, w, h, (n - 1) as nat, s);
        let ray = cam.sample_ray_spec(w, h, prev.1);
        let traced = ray_color_spec(shapes, ray.0, MAX_DEPTH as nat, ray.1);
        (prev.0.add_spec(traced.0), traced.1)
    }
}

/// The finished color of pixel (w, h): the average of `spp` independent
/// samples drawn from the pixel's own seeded stream.
pub open spec fn render_pixel_spec(
    shapes: Seq<Shape>,
    cam: CameraInfo,
    w: usize,
    h: usize,
    spp: usize,
    seed: u64,
) -> Color
    recommends
        spp >= 1,
{
    let s0 = crate::rng::pixel_seed(seed, w as u64, h as u64);
    let acc = accumulate_spec(shapes, cam, w, h, spp as nat, s0);
    Color { v: acc.0.scale_spec(fx_div_spec(FX_ONE, fx_from_nat_spec(spp as int))) }
}

/// Trace every sample of one pixel and average them; the result is a
/// valid color.
pub fn render_pixel(
    world: &World,
    cam: &CameraInfo,
    w: usize,
    h: usize,
    spp: usize,
    seed: u64,
) -> (c: Color)
    requires
        world.wf(),
        1 <= spp <= 0x7fffffff,
    ensures
        c == render_pixel_spec(world.shapes@, *cam, w, h, spp, seed),
        c.valid(),
{
    let mut rng = Rng::for_pixel(seed, w as u64, h as u64);
    let mut sum = Vec3 { x: 0, y: 0, z: 0 };
    let mut i: usize = 0;
    while i < spp
        invariant
            i <= spp <= 0x7fffffff,
            world.wf(),
            (sum, rng.state) == accumulate_spec(
                world.shapes@,
                *cam,
                w,
                h,
                i as nat,
                crate::rng::pixel_seed(seed, w as u64, h as u64),
            ),
            0 <= sum.x <= (i as int) * (FX_ONE as int),
            0 <= sum.y <= (i as int) * (FX_ONE as int),
            0 <= sum.z <= (i as int) * (FX_ONE as int),
        decreases spp - i,
    {
        let ray = cam.get_sample_ray(w, h, &mut rng);
        let traced = ray_color(ray, MAX_DEPTH, world, &mut rng);
        sum = sum.add(traced);
        i = i + 1;
    }
    let avg = sum.scale(fx_div(FX_ONE, fx_from_usize(spp)));
    proof {
        crate::fx::lemma_fx_average_unit(sum.x, spp);
        crate::fx::lemma_fx_average_unit(sum.y, spp);
        crate::fx::lemma_fx_average_unit(sum.z, spp);
    }
    Color::new(avg)
}

/// The first n pixels of row h, left to right.
pub open spec fn render_row_upto(
    shapes: Seq<Shape>,
    cam: CameraInfo,
    h: usize,
    spp: usize,
    seed: u64,
    n: nat,
) -> Seq<Color>
    decreases n,
{
    if n == 0 {
        Seq::empty()
    } else {
        render_row_upto(shapes, cam, h, spp, seed, (n - 1) as nat).push(
            render_pixel_spec(shapes, cam, (n - 1) as usize, h, spp, seed),
        )
    }
}

/// All pixels of row h.
pub open spec fn render_row_spec(
    shapes: Seq<Shape>,
    cam: CameraInfo,
    h: usize,
    spp: usize,
    seed: u64,
) -> Seq<Color> {
    render_row_upto(shapes, cam, h, spp, seed, cam.image_width as nat)
}

/// Render one row of the image.
#[verifier::rlimit(60)]
pub fn render_row(world: &World, cam: &CameraInfo, h: usize, spp: usize, seed: u64) -> (row: Vec<
    Color,
>)
    requires
        world.wf(),
        1 <= spp <= 0x7fffffff,
    ensures
        row@ == render_row_spec(world.shapes@, *cam, h, spp, seed),
        forall|i: int| 0 <= i < row@.len() ==> (#[trigger] row@[i]).valid(),
{
    let width = cam.image_width;
    let mut row: Vec<Color> = Vec::new();
    let mut w: usize = 0;
    while w < width
        invariant
            w <= width,
            width == cam.image_width,
            world.wf(),
            1 <= spp <= 0x7fffffff,
            row@ == render_row_upto(world.shapes@, *cam, h, spp, seed, w as nat),
            forall|i: int| 0 <= i < row@.len() ==> (#[trigger] row@[i]).valid(),
        decreases width - w,
    {
        let c = render_pixel(world, cam, w, h, spp, seed);
        row.push(c);
        w = w + 1;
    }
    row
}

/// Relies on rand::random: a fresh value from the thread-local generator;
/// nothing is promised of it.
pub assume_specification<T>[ rand::random::<T> ]() -> (r: T)
    where
        rand::distributions::Standard: rand::distributions::Distribution<T>,
;

/// Draw a render seed from the process's entropy; every seed is possible.
pub fn entropy_seed() -> u64 {
    rand::random::<u64>()
}

/// Relies on rayon: `into_par_iter().map(..).collect()` over a range is an
/// indexed parallel iterator whose collect places the value for index j at
/// position j, and the mapped closure only calls the library's verified
/// `render_row`, whose contract gives each row's value and validity.
#[verifier::external_body]
fn render_rows_parallel(world: &World, cam: &CameraInfo, spp: usize, seed: u64) -> (rows: Vec<
    Vec<Color>,
>)
    requires
        world.wf(),
        1 <= spp <= 0x7fffffff,
    ensures
        rows@.len() == cam.image_height,
        forall|j: int|
            0 <= j < rows@.len() ==> #[trigger] rows@[j]@ == render_row_spec(
                world.shapes@,
                *cam,
                j as usize,
                spp,
                seed,
            ),
        forall|j: int, i: int|
            0 <= j < rows@.len() && 0 <= i < rows@[j]@.len() ==> (#[trigger] rows@[j]@[i]).valid(),
{
    (0..cam.image_height).into_par_iter().map(|h| render_row(world, cam, h, spp, seed)).collect()
}

/// The byte stream of a whole render: the PPM serialization of every row,
/// rows produced independently from the shared seed.
pub open spec fn render_spec(shapes: Seq<Shape>, cam: CameraInfo, spp: usize, seed: u64) -> Seq<
    u8,
> {
    crate::ppm::ppm_spec(
        cam.image_width,
        cam.image_height,
        Seq::new(
            cam.image_height as nat,
            |j: int| render_row_spec(shapes, cam, j as usize, spp, seed),
        ),
    )
}

/// With the bounce budget exhausted, the gathered color is pure black,
/// whatever the ray, the scene and the random state.
pub proof fn lemma_ray_color_depth_zero(shapes: Seq<Shape>, r: Ray, s: u64)
    ensures
        ray_color_spec(shapes, r, 0, s).0 == (Vec3 { x: 0i64, y: 0i64, z: 0i64 }),
{
}

/// Against an empty scene, a ray pointing straight up yields exactly the
/// sky endpoint of the background gradient, and one pointing straight
/// down exactly the white ground endpoint, at any positive bounce budget.
pub proof fn lemma_ray_color_empty_vertical(
    shapes: Seq<Shape>,
    origin: Point3D,
    tm: i64,
    depth: nat,
    s: u64,
)
    requires
        shapes.len() == 0,
        depth >= 1,
    ensures
        ray_color_spec(
            shapes,
            Ray { origin, dir: Vec3 { x: 0i64, y: FX_ONE as i64, z: 0i64 }, tm },
            depth,
            s,
        ).0 == (Vec3 { x: FX_HALF as i64, y: FX_SKY_G as i64, z: FX_ONE as i64 }),
        ray_color_spec(
            shapes,
            Ray { origin, dir: Vec3 { x: 0i64, y: (-4294967296) as i64, z: 0i64 }, tm },
            depth,
            s,
        ).0 == (Vec3 { x: FX_ONE as i64, y: FX_ONE as i64, z: FX_ONE as i64 }),
{
    assert(4294967296 * 4294967296 / 4294967296 == 4294967296) by (nonlinear_arith);
    assert((4294967296 * 4294967296) as nat == 18446744073709551616nat) by (nonlinear_arith);
    crate::fx::lemma_sqrt_floor_unique(18446744073709551616nat, 4294967296nat);
    assert(4294967296nat * 4294967296nat == 18446744073709551616nat) by (nonlinear_arith);
    assert(4294967297nat * 4294967297nat > 18446744073709551616nat) by (nonlinear_arith);
    let up = Vec3 { x: 0i64, y: FX_ONE as i64, z: 0i64 };
    let down = Vec3 { x: 0i64, y: (-4294967296) as i64, z: 0i64 };
    assert(up.length_squared_spec() == FX_ONE);
    assert(down.length_squared_spec() == FX_ONE);
    assert(up.length_spec() == FX_ONE);
    assert(down.length_spec() == FX_ONE);
    assert(up.unit_spec() == up);
    assert(down.unit_spec() == down);
    assert(fx_mul_spec(FX_HALF, fx_add_spec(FX_ONE, FX_ONE)) == FX_ONE) by (nonlinear_arith);
    assert(fx_mul_spec(FX_HALF, FX_ONE) == FX_HALF) by (nonlinear_arith);
    assert(fx_mul_spec(FX_SKY_G, FX_ONE) == FX_SKY_G) by (nonlinear_arith);
    assert(fx_mul_spec(FX_ONE, FX_ONE) == FX_ONE) by (nonlinear_arith);
    let rup = Ray { origin, dir: up, tm };
    let rdown = Ray { origin, dir: down, tm };
    assert(world_hit_spec(shapes, rup) is None);
    assert(world_hit_spec(shapes, rdown) is None);
    assert(background_spec(rup) == (Vec3 {
        x: FX_HALF as i64,
        y: FX_SKY_G as i64,
        z: FX_ONE as i64,
    }));
    assert(background_spec(rdown) == (Vec3 { x: FX_ONE as i64, y: FX_ONE as i64, z: FX_ONE as i64 }));
}

/// Rendering is a pure function of scene, camera, sample count and seed:
/// any two renders of the same configuration yield the same byte stream.
pub proof fn lemma_render_deterministic(
    out1: Seq<u8>,
    out2: Seq<u8>,
    shapes: Seq<Shape>,
    cam: CameraInfo,
    spp: usize,
    seed: u64,
)
    requires
        out1 == render_spec(shapes, cam, spp, seed),
        out2 == render_spec(shapes, cam, spp, seed),
    ensures
        out1 == out2,
{
}

/// The camera together with the sampling rate: the outward rendering
/// surface of the library.
#[derive(Clone, Copy, PartialEq, Eq, Structural, Debug)]
pub struct Camera {
    pub viewport: CameraInfo,
    pub samples_per_pixel: usize,
}

impl Camera {
    /// A well-formed viewport and a sample count the averaging step can
    /// carry (at least one, and small enough that the sum of unit colors
    /// cannot saturate).
    pub open spec fn wf(self) -> bool {
        self.viewport.wf() && 1 <= self.samples_per_pixel <= 0x7fffffff
    }

    pub fn area(&self) -> (r: usize)
        requires
            self.viewport.image_width * self.viewport.image_height <= usize::MAX,
        ensures
            r == self.viewport.image_width * self.viewport.image_height,
    {
        self.viewport.image_width * self.viewport.image_height
    }

    pub fn set_camera_center(self, camera_center: Point3D) -> (c: Camera)
        requires
            self.viewport.wf(),
        ensures
            c.viewport == (CameraInfo { camera_center, ..self.viewport }).recalculated(),
            c.samples_per_pixel == self.samples_per_pixel,
            c.viewport.wf(),
    {
        let mut s = self;
        s.viewport.set_camera_center(camera_center);
        s.viewport.recalculate();
        s
    }

    pub fn set_look_at(self, look_at: Vec3) -> (c: Camera)
        requires
            self.viewport.wf(),
        ensures
            c.viewport == (CameraInfo { look_at, ..self.viewport }).recalculated(),
            c.samples_per_pixel == self.samples_per_pixel,
            c.viewport.wf(),
    {
        let mut s = self;
        s.viewport.set_look_at(look_at);
        s.viewport.recalculate();
        s
    }

    pub fn set_samples_per_pixel(self, samples_per_pixel: usize) -> (c: Camera)
        requires
            self.viewport.wf(),
        ensures
            c.viewport == self.viewport.recalculated(),
            c.samples_per_pixel == samples_per_pixel,
    {
        let mut s = self;
        s.samples_per_pixel = samples_per_pixel;
        s.viewport.recalculate();
        s
    }

    pub fn set_defocus_angle(self, defocus_angle: i64) -> (c: Camera)
        requires
            self.viewport.wf(),
        ensures
            c.viewport == (CameraInfo { defocus_angle, ..self.viewport }).recalculated(),
            c.samples_per_pixel == self.samples_per_pixel,
            c.viewport.wf(),
    {
        let mut s = self;
        s.viewport.set_defocus_angle(defocus_angle);
        s.viewport.recalculate();
        s
    }

    pub fn set_focus_dist(self, focus_dist: i64) -> (c: Camera)
        requires
            self.viewport.wf(),
        ensures
            c.viewport == (CameraInfo { focus_dist, ..self.viewport }).recalculated(),
            c.samples_per_pixel == self.samples_per_pixel,
            c.viewport.wf(),
    {
        let mut s = self;
        s.viewport.set_focus_dist(focus_dist);
        s.viewport.recalculate();
        s
    }

    pub fn set_vfov(self, vfov: i64) -> (c: Camera)
        requires
            self.viewport.wf(),
        ensures
            c.viewport == (CameraInfo { vfov, ..self.viewport }).recalculated(),
            c.samples_per_pixel == self.samples_per_pixel,
            c.viewport.wf(),
    {
        let mut s = self;
        s.viewport.set_vfov(vfov);
        s.viewport.recalculate();
        s
    }

    pub fn set_image_height(self, image_height: usize) -> (c: Camera)
        requires
            self.viewport.wf(),
            image_height >= 1,
        ensures
            c.viewport == (CameraInfo { image_height, ..self.viewport }).recalculated(),
            c.samples_per_pixel == self.samples_per_pixel,
            c.viewport.wf(),
    {
        let mut s = self;
        s.viewport.set_image_height(image_height);
        s.viewport.recalculate();
        s
    }

    pub fn set_image_width(self, image_width: usize) -> (c: Camera)
        requires
            self.viewport.wf(),
            image_width >= 1,
        ensures
            c.viewport == (CameraInfo { image_width, ..self.viewport }).recalculated(),
            c.samples_per_pixel == self.samples_per_pixel,
            c.viewport.wf(),
    {
        let mut s = self;
        s.viewport.set_image_width(image_width);
        s.viewport.recalculate();
        s
    }

    pub fn set_image_height_with_aspect_ratio(self, window_height: usize, aspect_ratio: i64) -> (c:
        Camera)
        requires
            self.viewport.wf(),
            window_height >= 1,
        ensures
            c.viewport == (CameraInfo {
                image_height: window_height,
                image_width: derived_extent(window_height, aspect_ratio),
                viewport_width: fx_mul_spec(self.viewport.viewport_height, aspect_ratio),
                ..self.viewport
            }).recalculated(),
            c.samples_per_pixel == self.samples_per_pixel,
            c.viewport.wf(),
    {
        let mut s = self;
        s.viewport.set_image_height_with_aspect_ratio(window_height, aspect_ratio);
        s.viewport.recalculate();
        s
    }

    pub fn set_image_width_with_aspect_ratio(self, window_width: usize, aspect_ratio: i64) -> (c:
        Camera)
        requires
            self.viewport.wf(),
            window_width >= 1,
            aspect_ratio != 0,
        ensures
            c.viewport == (CameraInfo {
                image_width: window_width,
                image_height: derived_extent(window_width, fx_div_spec(FX_ONE, aspect_ratio)),
                ..self.viewport
            }).recalculated(),
            c.samples_per_pixel == self.samples_per_pixel,
            c.viewport.wf(),
    {
        let mut s = self;
        s.viewport.set_image_width_with_aspect_ratio(window_width, aspect_ratio);
        s.viewport.recalculate();
        s
    }

    /// Render the scene into the PPM pixel stream, rows in parallel, with
    /// the given seed; the output is the same for the same inputs.
    pub fn render(&self, world: &World, seed: u64) -> (out: Vec<u8>)
        requires
            world.wf(),
            self.wf(),
        ensures
            out@ == render_spec(world.shapes@, self.viewport, self.samples_per_pixel, seed),
    {
        let rows = render_rows_parallel(world, &self.viewport, self.samples_per_pixel, seed);
        let out = crate::ppm::ppm_bytes(
            self.viewport.image_width,
            self.viewport.image_height,
            &rows,
        );
        proof {
            assert(rows@.map_values(|row: Vec<Color>| row@) =~= Seq::new(
                self.viewport.image_height as nat,
                |j: int|
                    render_row_spec(
                        world.shapes@,
                        self.viewport,
                        j as usize,
                        self.samples_per_pixel,
                        seed,
                    ),
            ));
        }
        out
    }

    /// Render with a seed drawn from the process's entropy, as an
    /// interactive caller would; the output is one of the possible seeded
    /// renders.
    pub fn render_with_entropy(&self, world: &World) -> (out: Vec<u8>)
        requires
            world.wf(),
            self.wf(),
        ensures
            exists|seed: u64|
                out@ == render_spec(world.shapes@, self.viewport, self.samples_per_pixel, seed),
    {
        let seed = entropy_seed();
        self.render(world, seed)
    }
}

impl Default for Camera {
    /// The default viewport with twenty samples per pixel.
    fn default() -> (c: Camera)
        ensures
            c.viewport == default_camera_info(),
            c.samples_per_pixel == 20usize,
            c.wf(),
    {
        Camera { viewport: Default::default(), samples_per_pixel: 20 }
    }
}

/// A pixel count scaled by a fixed-point factor, rounded to the nearest
/// whole number of pixels, at least one.  Rounding (rather than
/// truncating) keeps the common aspect ratios exact: 16/9 is slightly
/// below its ideal value on the fixed-point grid, and truncation would
/// turn a height of 720 into a width of 1279 instead of 1280.
pub open spec fn derived_extent(n: usize, factor: i64) -> usize {
    let scaled = crate::fx::fx_to_usize_spec(
        fx_add_spec(fx_mul_spec(fx_from_nat_spec(n as int), factor), FX_HALF),
    );
    if scaled >= 1 {
        scaled
    } else {
        1
    }
}

fn scaled_extent(n: usize, factor: i64) -> (r: usize)
    ensures
        r == derived_extent(n, factor),
        r >= 1,
{
    let scaled = crate::fx::fx_to_usize(fx_add(fx_mul(fx_from_usize(n), factor), FX_HALF));
    if scaled >= 1 {
        scaled
    } else {
        1
    }
}

/// The default camera: a 400 x 225 image looking down the negative z axis
/// with a 90-degree field of view and a focus distance of ten units.
pub open spec fn default_camera_info() -> CameraInfo {
    (CameraInfo {
        image_height: 225usize,
        image_width: 400usize,
        camera_center: Vec3 { x: 0i64, y: 0i64, z: 0i64 },
        vfov: 386547056640i64,
        defocus_angle: 0i64,
        focus_dist: 42949672960i64,
        look_at: Vec3 { x: 0i64, y: 0i64, z: (-4294967296) as i64 },
        vup: Vec3 { x: 0i64, y: FX_ONE as i64, z: 0i64 },
        viewport_width: 0i64,
        viewport_height: 0i64,
        viewport_u: Vec3 { x: 0i64, y: 0i64, z: 0i64 },
        viewport_v: Vec3 { x: 0i64, y: 0i64, z: 0i64 },
        pixel_delta_u: Vec3 { x: 0i64, y: 0i64, z: 0i64 },
        pixel_delta_v: Vec3 { x: 0i64, y: 0i64, z: 0i64 },
        pixel00_loc: Vec3 { x: 0i64, y: 0i64, z: 0i64 },
        viewport_upper_left: Vec3 { x: 0i64, y: 0i64, z: 0i64 },
        u_base: Vec3 { x: 0i64, y: 0i64, z: 0i64 },
        v_base: Vec3 { x: 0i64, y: 0i64, z: 0i64 },
        w_base: Vec3 { x: 0i64, y: 0i64, z: 0i64 },
        defocus_disk_u: Vec3 { x: 0i64, y: 0i64, z: 0i64 },
        defocus_disk_v: Vec3 { x: 0i64, y: 0i64, z: 0i64 },
    }).recalculated()
}

impl Default for CameraInfo {
    /// A 400 x 225 image looking down the negative z axis with a 90-degree
    /// field of view and a focus distance of ten units.
    fn default() -> (c: CameraInfo)
        ensures
            c == default_camera_info(),
            c.wf(),
            c.consistent(),
    {
        CameraInfo::private_new(
            225,
            400,
            Vec3 { x: 0, y: 0, z: 0 },
            Vec3 { x: 0, y: 0, z: -4294967296 },
            386547056640,
            42949672960,
            0,
        )
    }
}

} // verus!
