//! Byte-stream compression, provided by the zstd codec.
//!
//! Nothing here promises what compressed bytes look like; the contracts
//! speak only of `zstd_decoded`, the (deterministic) decoding function:
//! compression always succeeds, with bytes that decode back to the
//! input, and decoding succeeds exactly on decodable inputs.

use vstd::prelude::*;

verus! {

/// The compression level the tool uses by default, for the per-file
/// pass and the container pass alike.
pub const DEFAULT_LEVEL: i32 = 21;

/// What decoding a byte string yields: `Some(plain)` when the bytes are
/// one well-formed compressed frame holding `plain`, `None` otherwise.
/// Named, never written out: only the codec computes it.
pub uninterp spec fn zstd_decoded(bytes: Seq<u8>) -> Option<Seq<u8>>;

/// Relies on `zstd::stream::encode_all`: the output is a frame that
/// `zstd::stream::decode_all` decodes back to exactly the input bytes
/// (the codec is lossless).  The call succeeds on every input: an
/// out-of-range level is clamped, not rejected, and writing to an
/// in-memory buffer cannot fail.
#[verifier::external_body]
pub(crate) fn zstd_compress(data: &Vec<u8>, level: i32) -> (r: Option<Vec<u8>>)
    ensures
        r is Some,
        r matches Some(c) ==> zstd_decoded(c@) == Some(data@),
{
    zstd::stream::encode_all(&data[..], level).ok()
}

/// Relies on `zstd::stream::decode_all`: its result is a function of
/// the input bytes alone, and it succeeds exactly on inputs it can
/// decode.
#[verifier::external_body]
pub(crate) fn zstd_decompress(data: &Vec<u8>) -> (r: Option<Vec<u8>>)
    ensures
        r matches Some(d) ==> zstd_decoded(data@) == Some(d@),
        r is None ==> zstd_decoded(data@) is None,
{
    zstd::stream::decode_all(&data[..]).ok()
}

/// Decodes one entry's payload back to the file bytes it was made from.
///
/// The container stores each file's content individually compressed, so
/// a consumer of extracted entries applies this to every payload.
pub fn decode_payload(payload: &Vec<u8>) -> (r: Option<Vec<u8>>)
    ensures
        r matches Some(d) ==> zstd_decoded(payload@) == Some(d@),
        r is None ==> zstd_decoded(payload@) is None,
{
    zstd_decompress(payload)
}

} // verus!
