//! A deterministic Monte Carlo path tracer over fixed-point arithmetic.
//!
//! Scalars are signed 64-bit fixed-point numbers with 16 fractional bits
//! (`fixed::FX_ONE` is the representation of one). All geometry, material
//! scattering and color integration is carried out in this exact integer
//! model, so every stage of the renderer has a precise contract.

pub mod camera;
pub mod color;
pub mod fixed;
pub mod hittable;
pub mod hittable_list;
pub mod material;
pub mod interval;
pub mod ray;
pub mod rng;
pub mod sphere;
pub mod util;
pub mod vec3;
