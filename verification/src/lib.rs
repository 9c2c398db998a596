//! Core of a small CPU ray tracer.
//!
//! The renderer's floating-point mathematics (vector algebra, intersection
//! tests, shading) lives outside this library; what stands here is the part
//! of the pipeline that works on plain values and can be verified: quantized
//! colors, the image buffer and its serialized form, scene bookkeeping, and
//! the integer decisions of the render loop.

pub mod color;
pub mod engine;
pub mod image;
pub mod light;
pub mod material;
pub mod scene;
