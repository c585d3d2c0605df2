//! The codec capability: compression and decompression of whole byte
//! buffers, delegated to the zstd library behind two trusted wrappers.
//!
//! What the codec produces is named rather than written out: `zstd_encoding`
//! stands for the compressed frame, `zstd_decoding` for the result of
//! decoding (`None` where the bytes are not a well-formed frame).  The one
//! fact stated beside the names is zstd's documented lossless guarantee:
//! decoding an encoded frame yields the original bytes.

use vstd::prelude::*;

verus! {

/// The zstd frame produced by compressing `data` at `level`: a function of
/// the bytes and the level alone.
pub uninterp spec fn zstd_encoding(data: Seq<u8>, level: int) -> Seq<u8>;

/// The result of zstd-decoding `data`: `Some` of the decoded bytes exactly
/// when `data` is a well-formed frame, `None` otherwise.
pub uninterp spec fn zstd_decoding(data: Seq<u8>) -> Option<Seq<u8>>;

/// Relies on `zstd::stream::encode_all`: the compressed frame depends on the
/// input bytes and the level alone, and — zstd being lossless — decoding the
/// frame gives the input back.  At the levels this library uses the call
/// also succeeds: the source is a slice and the sink a `Vec`, neither of
/// which can fail, and zstd reports no error compressing at a valid level.
#[verifier::external_body]
pub(crate) fn compress_bytes(data: &Vec<u8>, level: i32) -> (r: Result<Vec<u8>, String>)
    requires
        1 <= level <= 19,
    ensures
        r is Ok,
        r is Ok ==> r->Ok_0@ == zstd_encoding(data@, level as int),
        r is Ok ==> zstd_decoding(r->Ok_0@) == Some(data@),
{
    match zstd::stream::encode_all(&data[..], level) {
        Ok(v) => Ok(v),
        Err(e) => Err(e.to_string()),
    }
}

/// Relies on `zstd::stream::decode_all`: decoding depends on the input bytes
/// alone and succeeds exactly on well-formed frames.
#[verifier::external_body]
pub(crate) fn decompress_bytes(data: &Vec<u8>) -> (r: Result<Vec<u8>, String>)
    ensures
        r is Ok <==> zstd_decoding(data@) is Some,
        r is Ok ==> Some(r->Ok_0@) == zstd_decoding(data@),
{
    match zstd::stream::decode_all(&data[..]) {
        Ok(v) => Ok(v),
        Err(e) => Err(e.to_string()),
    }
}

} // verus!
