//! Compression of a whole buffer as one raw Snappy block.

use vstd::prelude::*;
use crate::encoder::EncodeError;

verus! {

/// The error of the `snap` crate, opaque here.
#[verifier::external_type_specification]
#[verifier::external_body]
pub struct ExSnapError(snap::Error);

/// The raw Snappy block that `snap::raw::Encoder` makes of these bytes.
pub uninterp spec fn snappy_bytes(input: Seq<u8>) -> Seq<u8>;

/// Whether an input of this length can be compressed: the largest block that
/// it could need must have a length of 32 bits.
pub open spec fn snappy_accepts(len: nat) -> bool {
    32 + len + len / 6 <= 0xFFFF_FFFF
}

/// `compress_vec` of a new `snap::raw::Encoder`. It fails exactly where the
/// bound that `snap::raw::max_compress_len` computes for the input, 32 more
/// than seven sixths of its length, exceeds `u32::MAX`; otherwise it returns
/// the compressed block, which is a function of the input alone.
#[verifier::external_body]
fn snappy_compress(input: &Vec<u8>) -> (r: Result<Vec<u8>, snap::Error>)
    ensures
        r.is_ok() <==> snappy_accepts(input@.len()),
        r matches Ok(bytes) ==> bytes@ == snappy_bytes(input@),
{
    snap::raw::Encoder::new().compress_vec(input)
}

/// What compressing a buffer gives: its Snappy block, or the compression
/// error where the buffer is too long.
pub open spec fn compressed(input: Seq<u8>) -> Result<Seq<u8>, EncodeError> {
    if snappy_accepts(input.len()) {
        Ok(snappy_bytes(input))
    } else {
        Err(EncodeError::Compress)
    }
}

/// Compresses the whole buffer at once. No state is carried from one call to
/// the next.
pub fn compress(input: &Vec<u8>) -> (r: Result<Vec<u8>, EncodeError>)
    ensures
        match r {
            Ok(bytes) => compressed(input@) == Ok::<Seq<u8>, EncodeError>(bytes@),
            Err(e) => compressed(input@) == Err::<Seq<u8>, EncodeError>(e),
        },
{
    match snappy_compress(input) {
        Ok(bytes) => Ok(bytes),
        Err(_) => Err(EncodeError::Compress),
    }
}

} // verus!
