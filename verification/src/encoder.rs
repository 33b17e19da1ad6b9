//! The snapshot encoder: stamp, serialize, compress, and name the headers
//! that the transport has to send with the result.

use vstd::prelude::*;
use crate::snapshot::{family_view, snapshot_view, stamp_snapshot, stamped_snapshot};
use crate::snappy::{compress, compressed};
use crate::wire::{content_type, has_unsendable_family, protobuf_format, serialize, serialized};

verus! {

/// Why a snapshot could not be encoded. Either way only the current push
/// attempt is given up.
#[derive(Clone, Copy, Debug, PartialEq, Eq, Structural)]
pub enum EncodeError {
    /// The snapshot could not be serialized.
    Serialize,
    /// The serialized snapshot is too long to be compressed.
    Compress,
}

/// The content encoding of a compressed payload.
pub open spec fn snappy_encoding() -> Seq<char> {
    "snappy"@
}

/// What one push sends: the body, and the values of the `Content-Encoding`
/// and `Content-Type` headers.
#[derive(Clone, Debug, PartialEq, Eq)]
pub struct PushPayload {
    pub body: Vec<u8>,
    pub content_encoding: String,
    pub content_type: String,
}

impl PushPayload {
    /// The payload with this compressed body.
    pub fn new(body: Vec<u8>) -> (payload: PushPayload)
        ensures
            payload.body == body,
            payload.content_encoding@ == snappy_encoding(),
            payload.content_type@ == protobuf_format(),
    {
        PushPayload { body, content_encoding: "snappy".to_owned(), content_type: content_type() }
    }
}

/// The body that encoding gives for families that are already stamped:
/// their wire bytes, compressed.
pub open spec fn encoded_body(stamped: Seq<prometheus::proto::MetricFamily>) -> Result<Seq<u8>, EncodeError> {
    match serialized(stamped) {
        Ok(bytes) => compressed(bytes),
        Err(e) => Err(e),
    }
}

/// Encodes the snapshot for one push at the instant `now_ms`: every sample's
/// timestamp is overwritten with `now_ms`, the stamped snapshot is serialized,
/// and the serialized bytes are compressed. The snapshot is left stamped,
/// also where encoding fails.
pub fn encode(snapshot: &mut Vec<prometheus::proto::MetricFamily>, now_ms: i64) -> (r: Result<
    PushPayload,
    EncodeError,
>)
    ensures
        snapshot_view(final(snapshot)@) == stamped_snapshot(snapshot_view(old(snapshot)@), now_ms),
        match r {
            Ok(payload) => {
                &&& encoded_body(final(snapshot)@) == Ok::<Seq<u8>, EncodeError>(payload.body@)
                &&& payload.content_encoding@ == snappy_encoding()
                &&& payload.content_type@ == protobuf_format()
            },
            Err(e) => encoded_body(final(snapshot)@) == Err::<Seq<u8>, EncodeError>(e),
        },
        has_unsendable_family(old(snapshot)@) ==> r == Err::<PushPayload, EncodeError>(EncodeError::Serialize),
{
    stamp_snapshot(snapshot, now_ms);
    proof {
        if has_unsendable_family(old(snapshot)@) {
            let i = choose|i: int|
                0 <= i < old(snapshot)@.len() && !family_view(#[trigger] old(snapshot)@[i]).is_sendable();
            let before = snapshot_view(old(snapshot)@);
            assert(snapshot_view(snapshot@).len() == snapshot@.len());
            assert(stamped_snapshot(before, now_ms).len() == old(snapshot)@.len());
            assert(snapshot_view(snapshot@)[i] == before[i].stamped(now_ms));
            assert(!family_view(snapshot@[i]).is_sendable());
        }
    }
    match serialize(snapshot) {
        Err(e) => Err(e),
        Ok(bytes) => match compress(&bytes) {
            Err(e) => Err(e),
            Ok(body) => Ok(PushPayload::new(body)),
        },
    }
}

} // verus!
