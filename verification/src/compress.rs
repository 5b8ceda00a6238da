//! The two decompression primitives the resolver relies on, with names for
//! their results. Both are functions of their input bytes alone.

use vstd::prelude::*;

verus! {

/// What decompressing a byte sequence as a raw, headerless DEFLATE stream
/// yields: the decompressed bytes when the input is a valid stream, `None`
/// when it is not.
pub uninterp spec fn raw_inflate_of(data: Seq<u8>) -> Option<Seq<u8>>;

/// What decompressing a byte sequence as a full GZIP member (header,
/// DEFLATE body, CRC32 and length trailer) yields, or `None` when the bytes
/// are not valid GZIP data.
pub uninterp spec fn gunzip_of(data: Seq<u8>) -> Option<Seq<u8>>;

/// Relies on `inflate::inflate_bytes`: decompression of a raw, headerless
/// DEFLATE stream, whose outcome depends on the input bytes alone.
#[verifier::external_body]
pub(crate) fn inflate_raw(data: &[u8]) -> (r: Option<Vec<u8>>)
    ensures
        r is Some <==> raw_inflate_of(data@) is Some,
        r matches Some(v) ==> raw_inflate_of(data@) == Some(v@),
{
    inflate::inflate_bytes(data).ok()
}

/// Relies on `flate2::read::GzDecoder`: full GZIP decoding, which checks
/// the header and the CRC32 and length trailer, and whose outcome depends
/// on the input bytes alone.
#[verifier::external_body]
pub(crate) fn gunzip(data: &[u8]) -> (r: Option<Vec<u8>>)
    ensures
        r is Some <==> gunzip_of(data@) is Some,
        r matches Some(v) ==> gunzip_of(data@) == Some(v@),
{
    let mut decoder = flate2::read::GzDecoder::new(data);
    let mut out: Vec<u8> = Vec::new();
    match std::io::Read::read_to_end(&mut decoder, &mut out) {
        Ok(_) => Some(out),
        Err(_) => None,
    }
}

} // verus!
