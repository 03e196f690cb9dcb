//! The CBOR codec, the protocol's default binary encoding.

use bytes::Bytes;
use vstd::prelude::*;
use crate::codec::codec::Codec;
use crate::error::{Result, RiftError};
use crate::frame::types::Codec as FrameCodec;
use crate::payload::{bytes_content, bytes_from_vec};

verus! {

#[verifier::external_type_specification]
#[verifier::external_body]
#[verifier::reject_recursive_types(T)]
pub struct ExCborSerError<T>(ciborium::ser::Error<T>);

#[verifier::external_type_specification]
#[verifier::external_body]
#[verifier::reject_recursive_types(T)]
pub struct ExCborDeError<T>(ciborium::de::Error<T>);

/// The CBOR bytes `ciborium::into_writer` writes for a value; with maps
/// kept in key order it depends on the value alone.
pub uninterp spec fn cbor_encoding(v: serde_json::Value) -> Seq<u8>;

/// The JSON value `ciborium::from_reader` reads from these CBOR bytes,
/// when they parse; it depends on the bytes alone.
pub uninterp spec fn cbor_value(b: Seq<u8>) -> serde_json::Value;

/// `ciborium::into_writer` into a fresh buffer: the CBOR encoding of
/// `value`. It succeeds: writing into a `Vec` never fails, and a JSON
/// value's `Serialize` impl raises no error of its own (the encoder's
/// only other error is for tags, which a JSON value has none of).
#[verifier::external_body]
fn cbor_to_vec(value: &serde_json::Value) -> (r: core::result::Result<
    Vec<u8>,
    ciborium::ser::Error<std::io::Error>,
>)
    ensures
        r is Ok,
        r matches Ok(b) ==> b@ == cbor_encoding(*value),
{
    let mut buf = Vec::new();
    match ciborium::into_writer(value, &mut buf) {
        Ok(()) => Ok(buf),
        Err(e) => Err(e),
    }
}

/// Whether `ciborium::from_reader` reads a JSON value from these CBOR
/// bytes: it depends on the bytes alone.
pub uninterp spec fn cbor_parses(b: Seq<u8>) -> bool;

/// `ciborium::from_reader` on a byte slice: the JSON value the CBOR
/// bytes encode, or the decoder's error; it succeeds exactly when the
/// bytes parse, and empty input is an error (no header can be read).
#[verifier::external_body]
fn cbor_from_slice(bytes: &[u8]) -> (r: core::result::Result<
    serde_json::Value,
    ciborium::de::Error<std::io::Error>,
>)
    ensures
        r is Ok <==> cbor_parses(bytes@),
        r matches Ok(v) ==> v == cbor_value(bytes@),
        bytes@.len() == 0 ==> r is Err,
{
    ciborium::from_reader(bytes)
}

/// The CBOR binary codec: smaller payloads than JSON and faster to
/// parse; the preferred encoding in production.
#[derive(Debug, Clone, Copy)]
pub struct CborCodec;

impl Default for CborCodec {
    /// The codec.
    fn default() -> (r: CborCodec)
        ensures
            r == CborCodec,
    {
        CborCodec
    }
}

impl Codec for CborCodec {
    /// CBOR.
    open spec fn kind(&self) -> FrameCodec {
        FrameCodec::Cbor
    }

    /// `Cbor`, the tag under which this codec is negotiated.
    fn frame_codec(&self) -> (r: FrameCodec) {
        FrameCodec::Cbor
    }

    /// The CBOR encoding of `value`; encoding a JSON value does not
    /// fail.
    fn encode_value(&self, value: &serde_json::Value) -> (r: Result<Bytes>)
        ensures
            r is Ok,
            r matches Ok(b) ==> bytes_content(b) == cbor_encoding(*value),
    {
        match cbor_to_vec(value) {
            Ok(buf) => Ok(bytes_from_vec(buf)),
            Err(e) => Err(RiftError::from_cbor_ser(e)),
        }
    }

    /// The value the CBOR `bytes` encode; malformed input is reported
    /// as a `CborDe` error.
    fn decode_value(&self, bytes: &[u8]) -> (r: Result<serde_json::Value>)
        ensures
            r is Ok <==> cbor_parses(bytes@),
            r matches Ok(v) ==> v == cbor_value(bytes@),
            r matches Err(e) ==> e is CborDe,
            bytes@.len() == 0 ==> r is Err,
    {
        match cbor_from_slice(bytes) {
            Ok(v) => Ok(v),
            Err(e) => Err(RiftError::from_cbor_de(e)),
        }
    }
}

} // verus!
