//! Serialization of a snapshot into the protobuf wire format of metric
//! families: each family as one length-delimited message, in order.

use vstd::prelude::*;
use crate::encoder::EncodeError;
use crate::snapshot::family_view;

verus! {

/// The error of the `prometheus` crate, opaque here.
#[verifier::external_type_specification]
#[verifier::external_body]
pub struct ExPrometheusError(prometheus::Error);

/// The bytes that `prometheus::ProtobufEncoder` writes for these families, or
/// `None` where it refuses them.
pub uninterp spec fn wire_bytes(families: Seq<prometheus::proto::MetricFamily>) -> Option<Seq<u8>>;

/// The content type of the wire format.
pub open spec fn protobuf_format() -> Seq<char> {
    "application/vnd.google.protobuf; proto=io.prometheus.client.MetricFamily; encoding=delimited"@
}

/// `Encoder::encode` of `prometheus::ProtobufEncoder`, into an empty buffer.
/// Its outcome is a function of the families alone. Before it writes a
/// family it checks that the family has a name and at least one sample, and
/// fails otherwise; nothing is claimed here of when it succeeds.
#[verifier::external_body]
fn protobuf_encode(families: &Vec<prometheus::proto::MetricFamily>) -> (r: Result<Vec<u8>, prometheus::Error>)
    ensures
        match r {
            Ok(bytes) => wire_bytes(families@) == Some(bytes@),
            Err(_) => wire_bytes(families@).is_none(),
        },
        (exists|i: int| 0 <= i < families@.len() && !family_view(#[trigger] families@[i]).is_sendable())
            ==> r.is_err(),
{
    let mut buf: Vec<u8> = Vec::new();
    match prometheus::Encoder::encode(&prometheus::ProtobufEncoder::new(), families, &mut buf) {
        Ok(()) => Ok(buf),
        Err(e) => Err(e),
    }
}

/// `prometheus::PROTOBUF_FORMAT`, the content type that `ProtobufEncoder`
/// declares for what it writes.
#[verifier::external_body]
fn protobuf_content_type() -> (r: String)
    ensures
        r@ == protobuf_format(),
{
    String::from(prometheus::PROTOBUF_FORMAT)
}

/// Whether some family of the snapshot lacks a name or has no sample.
pub open spec fn has_unsendable_family(snapshot: Seq<prometheus::proto::MetricFamily>) -> bool {
    exists|i: int| 0 <= i < snapshot.len() && !family_view(#[trigger] snapshot[i]).is_sendable()
}

/// What serializing a snapshot gives: its wire bytes, or the serialization
/// error where the encoder refuses it.
pub open spec fn serialized(snapshot: Seq<prometheus::proto::MetricFamily>) -> Result<Seq<u8>, EncodeError> {
    match wire_bytes(snapshot) {
        Some(bytes) => Ok(bytes),
        None => Err(EncodeError::Serialize),
    }
}

/// Serializes the snapshot into the wire format. A snapshot with a family
/// that lacks a name or has no sample is refused.
pub fn serialize(snapshot: &Vec<prometheus::proto::MetricFamily>) -> (r: Result<Vec<u8>, EncodeError>)
    ensures
        match r {
            Ok(bytes) => serialized(snapshot@) == Ok::<Seq<u8>, EncodeError>(bytes@),
            Err(e) => serialized(snapshot@) == Err::<Seq<u8>, EncodeError>(e),
        },
        has_unsendable_family(snapshot@) ==> r == Err::<Vec<u8>, EncodeError>(EncodeError::Serialize),
{
    match protobuf_encode(snapshot) {
        Ok(bytes) => Ok(bytes),
        Err(_) => Err(EncodeError::Serialize),
    }
}

/// The content type to send with serialized families.
pub fn content_type() -> (r: String)
    ensures
        r@ == protobuf_format(),
{
    protobuf_content_type()
}

} // verus!
