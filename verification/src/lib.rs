//! Deterministic core of a 2D rigid-body physics simulation.
//!
//! Positions, velocities, forces and the other continuous quantities are
//! held as fixed-point numbers: signed 64-bit integers counting
//! [`scalar::SCALE`]-ths of a unit. Fixed-point keeps every step of the
//! integrator exactly reproducible on every machine, which is what lets the
//! stepping loop fan the per-body work out to a thread pool without giving
//! up determinism.

pub mod body;
pub mod bounding_box;
pub mod matrix;
pub mod scalar;
pub mod v2;
pub mod world;

pub use body::Body;
pub use bounding_box::BoundingBox;
pub use matrix::M22;
pub use v2::V2;
pub use world::{DampingError, World};
