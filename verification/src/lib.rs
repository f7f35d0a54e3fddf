//! A deterministic path tracer over fixed-point arithmetic.
//!
//! Every quantity (coordinate, direction component, color channel, ray
//! parameter) is a signed 64-bit integer holding the value times `SCALE`,
//! so the whole rendering pipeline — vector algebra, sphere intersection,
//! scattering, the radiance integrator and the pixel estimator — computes
//! exactly and carries contracts that pin each result down.

pub mod camera;
pub mod color_util;
pub mod fixed;
pub mod hittable;
pub mod hittable_list;
pub mod material;
pub mod math;
pub mod laws;
pub mod ray;
pub mod renderer;
pub mod sphere;
pub mod vec;
pub mod vec_util;
