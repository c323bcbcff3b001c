//! Scene encoding for a GPU-accelerated 2D vector-graphics renderer.
//!
//! The library translates a sequence of drawing commands (paths, transforms,
//! fills, gradients, clips, glyphs) into a small set of flat binary streams,
//! and computes the exact memory layout of the uploaded scene buffer and of
//! the scratch buffer consumed by the parallel compute pipeline.
//!
//! Floating-point values (transform coefficients, line widths, gradient
//! geometry) are carried as their IEEE-754 bit patterns: the encoder never
//! interprets them, it only stores and serializes them byte for byte.

pub mod align;
pub mod blend;
pub mod bytes;
pub mod encoder;
pub mod layout;
pub mod model;
pub mod ops;
pub mod params;
pub mod transform;
