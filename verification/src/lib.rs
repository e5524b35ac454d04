//! Combines two raster images into one by taking their RGBA pixels in turn.
//!
//! Both images are first brought to a common resolution, the one with the
//! smaller pixel count, and their pixel buffers are then interleaved pixel by
//! pixel into a single output buffer.

pub mod args;
pub mod buffer;
pub mod decoded;
pub mod error;
pub mod interleave;
pub mod pipeline;
pub mod resize;
pub mod resolution;
