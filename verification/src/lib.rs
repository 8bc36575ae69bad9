//! Verified core of a spectrum-analyser data-acquisition pipeline.
//!
//! The hardware produces spectral buffers of 64-bit words in a compact
//! floating-point encoding (8-bit exponent in the top byte, 56-bit mantissa
//! below it).  This crate holds the verified logic of the pipeline: decoding
//! words to integer magnitudes, serialising single-precision bit patterns to
//! the published byte payload, the per-buffer publish decision, the shared
//! sample-rate configuration cell, and the plan for applying a control-plane
//! patch to the hardware registers.

pub mod config;
pub mod decoder;
pub mod patch;
pub mod payload;
pub mod pipeline;
