//! Verified core of an image-optimization pipeline.
//!
//! Given one decoded source image, the library decides, per requested
//! variant, whether to resize, whether to compress, with which settings,
//! and at which path the result is to be written.  The numeric work
//! (aspect-ratio arithmetic, Lanczos resampling) and the byte-level
//! naming rules live here with full contracts; decoding, the lossy
//! encoders' innards, and all file writes are left to the thin driver
//! around the library.

pub mod bytes;
pub mod compress;
pub mod dims;
pub mod errors;
pub mod optimizer;
pub mod paths;
pub mod resample;
