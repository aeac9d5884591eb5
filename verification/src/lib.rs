//! Single-frame capture pipeline: the brightness transform that turns packed
//! 32-bit camera pixels into an RGBA raster, the timestamp-derived name of the
//! file it is saved under, and the controller that sequences device, frame,
//! image and file.
//!
//! Every function is verified against the contract it states, but for two
//! that call into other crates and are trusted: the one that reads the local
//! clock and the one that wraps a byte buffer as an image.

pub mod error;
pub mod frame;
pub mod naming;
pub mod notice;
pub mod pipeline;
pub mod pixel;
pub mod raster;
