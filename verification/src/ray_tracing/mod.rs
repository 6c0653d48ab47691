//! Rays and the protocol by which a shape answers them.
pub mod ray;
pub mod ray_target;

pub use ray::Ray;
pub use ray_target::{HitInfo, RayTarget};
