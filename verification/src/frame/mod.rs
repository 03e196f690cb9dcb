//! Frame-level primitives and the frame envelope.

pub mod types;
pub mod envelope;

pub use envelope::Frame;
pub use types::{Codec, FrameFlags, FrameType, Priority};
