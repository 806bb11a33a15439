//! Control core of a desktop screen-recording utility.
//!
//! The crate coordinates a capture/encode pipeline, an input-sampling loop,
//! a bounded-time finalization handshake, and the media-delivery path that
//! exposes the finished artifact. The pixel capture and the video encoder
//! themselves are external collaborators; this crate owns the sequencing,
//! the ownership discipline around the encoder handle, and the failure
//! recovery around them.

use vstd::prelude::*;

pub mod capture;
pub mod delivery;
pub mod display;
pub mod finalize;
pub mod numerals;
pub mod sampler;
pub mod server;
pub mod session;

pub use display::MonitorInfo;
pub use sampler::MousePosition;

verus! {

/// Size in bytes of one delivery chunk.
pub const CHUNK_SIZE: usize = 1048576;

} // verus!
