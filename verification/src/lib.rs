//! A path-tracing renderer whose arithmetic core is verified.
//!
//! All geometry and color computation is carried out in signed Q31.32
//! fixed-point arithmetic (`i64` scalars, 32 fractional bits), so that every
//! numeric step has an exact mathematical meaning that the verifier can check.

pub mod camera;
pub mod color;
pub mod fx;
pub mod hittable;
pub mod materials;
pub mod ppm;
pub mod ray;
pub mod rng;
pub mod shapes;
pub mod trig;
pub mod vec3;
pub mod world;
