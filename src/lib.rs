//! A fixed-capacity bip-buffer: a circular buffer that keeps its data in at
//! most two contiguous regions, so that every read is one contiguous block.

pub mod model;
pub mod bip;
pub mod laws;

pub use bip::StaticBip;
