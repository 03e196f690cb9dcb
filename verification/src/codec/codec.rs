//! The `Codec` trait and codec negotiation.

use std::sync::Arc;

use bytes::Bytes;
use vstd::prelude::*;
use vstd::string::StringExecFns;
use crate::error::{FrameReject, Result, RiftError};
use crate::frame::types::Codec as FrameCodec;
use crate::handle::share;

verus! {

#[verifier::external_type_specification]
#[verifier::external_body]
pub struct ExJsonValue(serde_json::Value);

/// `<serde_json::Value as Clone>::clone`: the clone `derive` writes for
/// serde_json's value, a copy equal to the original.
pub assume_specification[ <serde_json::Value as Clone>::clone ](v: &serde_json::Value) -> (r:
    serde_json::Value)
    ensures
        r == *v,
;

/// A single named encoding. Codecs are stateless: they encode a JSON
/// value to bytes and back, and carry the frame codec tag under which
/// they are negotiated.
pub trait Codec: Send + Sync {
    /// The frame codec this codec implements.
    spec fn kind(&self) -> FrameCodec;

    /// The frame codec this codec implements.
    fn frame_codec(&self) -> (r: FrameCodec)
        ensures
            r == self.kind(),
    ;

    /// Encodes a JSON value to bytes.
    fn encode_value(&self, value: &serde_json::Value) -> Result<Bytes>;

    /// Decodes bytes to a JSON value.
    fn decode_value(&self, bytes: &[u8]) -> Result<serde_json::Value>;
}

/// How `{:?}` prints each frame codec.
pub open spec fn codec_debug_name(c: FrameCodec) -> Seq<char> {
    match c {
        FrameCodec::Json => "Json"@,
        FrameCodec::Cbor => "Cbor"@,
    }
}

/// The debug names of `s`, separated by `", "`.
pub open spec fn joined_names(s: Seq<FrameCodec>) -> Seq<char>
    decreases s.len(),
{
    if s.len() == 0 {
        Seq::empty()
    } else if s.len() == 1 {
        codec_debug_name(s[0])
    } else {
        joined_names(s.drop_last()) + ", "@ + codec_debug_name(s.last())
    }
}

/// The message of a failed negotiation: `client offered [..]`, listing
/// the client's codecs as `{:?}` prints a slice of them.
pub open spec fn unsupported_message(client: Seq<FrameCodec>) -> Seq<char> {
    "client offered ["@ + joined_names(client) + "]"@
}

/// The frame codec of each server codec, in order.
pub open spec fn kinds<C: Codec + ?Sized>(server: Seq<Arc<C>>) -> Seq<FrameCodec> {
    Seq::new(server.len(), |j: int| server[j].kind())
}

/// The codec chosen for a client's preferences: the first codec the
/// client lists that some server codec implements, served by the first
/// server codec that implements it.
pub open spec fn is_choice<C: Codec + ?Sized>(
    server: Seq<Arc<C>>,
    client: Seq<FrameCodec>,
    i: int,
    j: int,
) -> bool {
    &&& 0 <= i < client.len()
    &&& 0 <= j < server.len()
    &&& kinds(server)[j] == client[i]
    &&& forall|i2: int| 0 <= i2 < i ==> !kinds(server).contains(#[trigger] client[i2])
    &&& forall|j2: int| 0 <= j2 < j ==> #[trigger] kinds(server)[j2] != client[i]
}

fn debug_name(c: FrameCodec) -> (r: &'static str)
    ensures
        r@ == codec_debug_name(c),
{
    match c {
        FrameCodec::Json => "Json",
        FrameCodec::Cbor => "Cbor",
    }
}

/// The message of a failed negotiation for the client's codecs.
fn offered_message(client: &[FrameCodec]) -> (r: String)
    ensures
        r@ == unsupported_message(client@),
{
    let mut s = String::from_str("client offered [");
    let mut i: usize = 0;
    while i < client.len()
        invariant
            i <= client.len(),
            s@ == "client offered ["@ + joined_names(client@.take(i as int)),
        decreases client.len() - i,
    {
        let ghost before = s@;
        let name = debug_name(client[i]);
        if i > 0 {
            s.append(", ");
        }
        s.append(name);
        proof {
            let t = client@.take(i as int + 1);
            assert(t.drop_last() =~= client@.take(i as int));
            assert(t.last() == client@[i as int]);
            if i == 0 {
                assert(client@.take(0) =~= Seq::<FrameCodec>::empty());
                assert(s@ =~= "client offered ["@ + joined_names(t));
            } else {
                assert(s@ =~= "client offered ["@ + joined_names(t));
            }
        }
        i = i + 1;
    }
    assert(client@.take(client.len() as int) =~= client@);
    s.append("]");
    s
}

/// Negotiates the codec of a connection: the first codec in the
/// client's preference list that one of the server's codecs implements,
/// served by the first such server codec. Fails with
/// `CodecUnsupported` when none of the client's codecs is available.
pub fn negotiate<C: Codec + ?Sized>(server: &[Arc<C>], client: &[FrameCodec]) -> (r: Result<Arc<C>>)
    ensures
        match r {
            Ok(c) => exists|i: int, j: int| #[trigger]
                is_choice(server@, client@, i, j) && c == server@[j],
            Err(e) => {
                &&& forall|i: int|
                    0 <= i < client@.len() ==> !kinds(server@).contains(#[trigger] client@[i])
                &&& e matches RiftError::Frame(FrameReject::CodecUnsupported(m))
                &&& m@ == unsupported_message(client@)
            },
        },
{
    let mut i: usize = 0;
    while i < client.len()
        invariant
            i <= client.len(),
            forall|i2: int| 0 <= i2 < i ==> !kinds(server@).contains(#[trigger] client@[i2]),
        decreases client.len() - i,
    {
        let want = client[i];
        let mut j: usize = 0;
        while j < server.len()
            invariant
                i < client.len(),
                want == client@[i as int],
                j <= server.len(),
                forall|i2: int| 0 <= i2 < i ==> !kinds(server@).contains(#[trigger] client@[i2]),
                forall|j2: int| 0 <= j2 < j ==> #[trigger] kinds(server@)[j2] != want,
            decreases server.len() - j,
        {
            let k = server[j].frame_codec();
            if k == want {
                assert(is_choice(server@, client@, i as int, j as int));
                return Ok(share(&server[j]));
            }
            j = j + 1;
        }
        proof {
            if kinds(server@).contains(want) {
                let j2 = choose|j2: int| 0 <= j2 < kinds(server@).len() && kinds(server@)[j2] == want;
                assert(kinds(server@)[j2] != want);
            }
        }
        i = i + 1;
    }
    Err(RiftError::Frame(FrameReject::CodecUnsupported(offered_message(client))))
}

} // verus!
