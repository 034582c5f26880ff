//! Batched quad rendering: instance records, uniform block layout,
//! draw-call chunking, and the pipeline configuration they are bound to.

pub mod codec;
pub mod quad;
pub mod uniforms;
pub mod batch;
pub mod config;
pub mod blend;
