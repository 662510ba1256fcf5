//! A small sampler library: rectangle areas and a shape capability,
//! bounded integer sequences (countdown, counting up, even numbers),
//! parity labelling, and color formatting.

pub mod color;
pub mod geometry;
pub mod sequences;
