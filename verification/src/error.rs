//! The closed set of ways a decode can fail.

use vstd::prelude::*;

verus! {

/// Why a `/vcs` message failed to decode. Every failure of the decoder is
/// one of these variants; the decoder returns no partial results.
#[derive(Clone, Copy, Debug, PartialEq, Eq, Structural)]
pub enum DecodeError {
    /// The buffer is shorter than the minimum fixed envelope (12 bytes).
    TooShort,
    /// No NUL terminator ends the address pattern anywhere in the buffer.
    MalformedAddress,
    /// The address pattern is present but is not exactly `/vcs`.
    UnexpectedAddress,
    /// The bytes at the type-tag offset are not `,b`.
    InvalidTypeTag,
    /// The buffer ends before the 4-byte blob-length field.
    TruncatedLength,
    /// The buffer ends before the declared blob length is satisfied.
    TruncatedBlob,
    /// The blob payload has zero length where a record was required.
    EmptyBlob,
    /// The payload carries the `'?'` compression marker but the bytes after
    /// it are not a valid DEFLATE stream.
    DecompressionFailed,
    /// The payload starts with the GZIP magic number but is not valid GZIP
    /// data.
    InvalidGzip,
    /// The decompressed payload length is not a multiple of the 8-byte
    /// record size.
    MisalignedRecordData,
}

} // verus!
