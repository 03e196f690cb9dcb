//! The JSON codec: human-readable, for debugging and development.

use bytes::Bytes;
use vstd::prelude::*;
use crate::codec::codec::Codec;
use crate::error::{Result, RiftError};
use crate::frame::types::Codec as FrameCodec;
use crate::payload::{bytes_content, bytes_from_vec};

verus! {

/// Whether `serde_json::from_slice` reads a JSON value from text with
/// these bytes: it depends on the bytes alone.
pub uninterp spec fn json_parses(b: Seq<u8>) -> bool;

/// The compact JSON text `serde_json::to_vec` writes for a value; with
/// maps kept in key order it depends on the value alone.
pub uninterp spec fn json_encoding(v: serde_json::Value) -> Seq<u8>;

/// The JSON value `serde_json::from_slice` reads from these bytes, when
/// they parse; it depends on the bytes alone.
pub uninterp spec fn json_value(b: Seq<u8>) -> serde_json::Value;

/// `serde_json::to_vec`: the compact JSON text of `value`. It succeeds:
/// serde_json fails only where a `Serialize` impl fails or a map key is
/// not a string, and neither can happen for a `Value`.
#[verifier::external_body]
pub(crate) fn json_to_vec(value: &serde_json::Value) -> (r: core::result::Result<Vec<u8>, serde_json::Error>)
    ensures
        r is Ok,
        r matches Ok(b) ==> b@ == json_encoding(*value),
{
    serde_json::to_vec(value)
}

/// `serde_json::from_slice`: the JSON value the text in `bytes`
/// denotes, or the parser's error; it succeeds exactly when the bytes
/// parse, and empty input is an error (the parser finds no value).
#[verifier::external_body]
fn json_from_slice(bytes: &[u8]) -> (r: core::result::Result<serde_json::Value, serde_json::Error>)
    ensures
        r is Ok <==> json_parses(bytes@),
        r matches Ok(v) ==> v == json_value(bytes@),
        bytes@.len() == 0 ==> r is Err,
{
    serde_json::from_slice(bytes)
}

/// The JSON text codec. Payloads are larger than with CBOR but can be
/// read with any JSON tool.
#[derive(Debug, Clone, Copy)]
pub struct JsonCodec;

impl Default for JsonCodec {
    /// The codec.
    fn default() -> (r: JsonCodec)
        ensures
            r == JsonCodec,
    {
        JsonCodec
    }
}

impl Codec for JsonCodec {
    /// JSON.
    open spec fn kind(&self) -> FrameCodec {
        FrameCodec::Json
    }

    /// `Json`, the tag under which this codec is negotiated.
    fn frame_codec(&self) -> (r: FrameCodec) {
        FrameCodec::Json
    }

    /// The compact JSON text of `value`; serializing a JSON value does
    /// not fail.
    fn encode_value(&self, value: &serde_json::Value) -> (r: Result<Bytes>)
        ensures
            r is Ok,
            r matches Ok(b) ==> bytes_content(b) == json_encoding(*value),
    {
        match json_to_vec(value) {
            Ok(buf) => Ok(bytes_from_vec(buf)),
            Err(e) => Err(RiftError::from_serde_json(e)),
        }
    }

    /// The value the JSON text in `bytes` denotes; malformed input is
    /// reported as a `SerdeJson` error.
    fn decode_value(&self, bytes: &[u8]) -> (r: Result<serde_json::Value>)
        ensures
            r is Ok <==> json_parses(bytes@),
            r matches Ok(v) ==> v == json_value(bytes@),
            r matches Err(e) ==> e is SerdeJson,
            bytes@.len() == 0 ==> r is Err,
    {
        match json_from_slice(bytes) {
            Ok(v) => Ok(v),
            Err(e) => Err(RiftError::from_serde_json(e)),
        }
    }
}

} // verus!
