//! Host-side model of the compute stages of a path tracer.
//!
//! A stage is a compiled GPU program together with the descriptor
//! infrastructure that connects it to buffers: a set layout, a pool, one
//! descriptor set, a pipeline layout and the compute pipeline. This crate
//! decides *what* is asked of the device and in which order, keeps track of
//! what the device answered, and refuses to hand out a dispatch for a stage
//! whose descriptor set was never written. The device calls themselves are
//! made by the caller.

pub mod error;
pub mod declaration;
pub mod pool;
pub mod shader;
pub mod stage;
pub mod builder;
pub mod camera_rays;
pub mod ray_triangle_intersector;
pub mod vertex_skinner;
