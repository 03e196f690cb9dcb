//! Codec layer: pluggable payload encoders and decoders, and the
//! negotiation of the one a connection uses.

pub mod codec;
pub mod cbor;
pub mod json;

pub use cbor::CborCodec;
pub use codec::{Codec, negotiate};
pub use json::JsonCodec;
