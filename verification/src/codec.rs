//! The `/vcs` message decoder: envelope validation, compression
//! resolution, and fixed-width record decoding, together with the
//! mathematical model each step is proved against.

use vstd::prelude::*;

use crate::compress::{gunzip, gunzip_of, inflate_raw, raw_inflate_of};
use crate::error::DecodeError;
use crate::event::KymaConcreteEvent;

verus! {

// ---------------------------------------------------------------------------
// Byte-level model
// ---------------------------------------------------------------------------

/// The value of four bytes read as a big-endian unsigned 32-bit integer.
pub open spec fn be_u32(b0: u8, b1: u8, b2: u8, b3: u8) -> int {
    b0 * 0x100_0000 + b1 * 0x1_0000 + b2 * 0x100 + b3
}

/// The value of four bytes read as a big-endian two's-complement signed
/// 32-bit integer.
pub open spec fn be_i32(b0: u8, b1: u8, b2: u8, b3: u8) -> int {
    if be_u32(b0, b1, b2, b3) >= 0x8000_0000 {
        be_u32(b0, b1, b2, b3) - 0x1_0000_0000
    } else {
        be_u32(b0, b1, b2, b3)
    }
}

/// The record standing in the 8-byte window `i` of `data`: bytes 0-3 of the
/// window are the big-endian signed event identifier, bytes 4-7 the
/// big-endian bit pattern of the float value.
pub open spec fn record_at(data: Seq<u8>, i: int) -> KymaConcreteEvent
    recommends
        0 <= i,
        8 * i + 8 <= data.len(),
{
    KymaConcreteEvent {
        event_id: be_i32(data[8 * i], data[8 * i + 1], data[8 * i + 2], data[8 * i + 3]) as i32,
        value_bits: be_u32(data[8 * i + 4], data[8 * i + 5], data[8 * i + 6], data[8 * i + 7]) as u32,
    }
}

/// All records of `data`, one per consecutive 8-byte window, in order.
pub open spec fn decoded_records(data: Seq<u8>) -> Seq<KymaConcreteEvent>
    recommends
        data.len() % 8 == 0,
{
    Seq::new((data.len() / 8) as nat, |i: int| record_at(data, i))
}

// ---------------------------------------------------------------------------
// Envelope model
// ---------------------------------------------------------------------------

/// Whether the buffer holds a zero byte anywhere, i.e. whether the address
/// pattern has a NUL terminator at all.
pub open spec fn has_zero_byte(s: Seq<u8>) -> bool {
    exists|i: int| 0 <= i < s.len() && s[i] == 0
}

/// The address field is exactly the pattern `/vcs` with its NUL terminator:
/// the first zero byte of the buffer stands at index 4 and the four bytes
/// before it spell `/vcs`. (The four pattern bytes are nonzero, so index 4
/// then really is the first zero.)
pub open spec fn address_ok(raw: Seq<u8>) -> bool {
    &&& raw.len() >= 5
    &&& raw[0] == 0x2f  // '/'
    &&& raw[1] == 0x76  // 'v'
    &&& raw[2] == 0x63  // 'c'
    &&& raw[3] == 0x73  // 's'
    &&& raw[4] == 0
}

/// The 4-byte type-tag field at offset 8 (the address field, padded,
/// occupies 8 bytes) starts with `,b`.
pub open spec fn type_tag_ok(raw: Seq<u8>) -> bool {
    &&& raw.len() >= 10
    &&& raw[8] == 0x2c  // ','
    &&& raw[9] == 0x62  // 'b'
}

/// The declared blob length: the big-endian u32 at offset 12.
pub open spec fn spec_blob_length(raw: Seq<u8>) -> int
    recommends
        raw.len() >= 16,
{
    be_u32(raw[12], raw[13], raw[14], raw[15])
}

/// What envelope validation yields on a raw buffer: the blob payload (the
/// declared number of bytes following the length field; trailing bytes
/// after it are ignored), or the first failure in validation order.
pub open spec fn spec_parse_envelope(raw: Seq<u8>) -> Result<Seq<u8>, DecodeError> {
    if raw.len() < 12 {
        Err(DecodeError::TooShort)
    } else if !has_zero_byte(raw) {
        Err(DecodeError::MalformedAddress)
    } else if !address_ok(raw) {
        Err(DecodeError::UnexpectedAddress)
    } else if !type_tag_ok(raw) {
        Err(DecodeError::InvalidTypeTag)
    } else if raw.len() < 16 {
        Err(DecodeError::TruncatedLength)
    } else if raw.len() - 16 < spec_blob_length(raw) {
        Err(DecodeError::TruncatedBlob)
    } else {
        Ok(raw.subrange(16, 16 + spec_blob_length(raw)))
    }
}

// ---------------------------------------------------------------------------
// Compression-resolution model
// ---------------------------------------------------------------------------

/// What compression resolution yields on a nonempty blob payload, in the
/// fixed order the senders require: first the whole payload as a raw
/// DEFLATE stream; then, after a literal `'?'` marker, the rest as a raw
/// DEFLATE stream; then, behind the GZIP magic number, full GZIP; and
/// finally the payload verbatim.
pub open spec fn spec_resolve_payload(blob: Seq<u8>) -> Result<Seq<u8>, DecodeError> {
    if blob.len() == 0 {
        Err(DecodeError::EmptyBlob)
    } else if raw_inflate_of(blob) is Some {
        Ok(raw_inflate_of(blob)->Some_0)
    } else if blob[0] == 0x3f {  // '?'
        match raw_inflate_of(blob.skip(1)) {
            Some(data) => Ok(data),
            None => Err(DecodeError::DecompressionFailed),
        }
    } else if blob.len() >= 2 && blob[0] == 0x1f && blob[1] == 0x8b {
        match gunzip_of(blob) {
            Some(data) => Ok(data),
            None => Err(DecodeError::InvalidGzip),
        }
    } else {
        Ok(blob)
    }
}

// ---------------------------------------------------------------------------
// Whole-decoder model
// ---------------------------------------------------------------------------

/// What decoding a whole `/vcs` message yields: the envelope is validated,
/// an empty blob is zero events, and otherwise the payload is resolved,
/// required to split into whole 8-byte windows, and decoded window by
/// window.
pub open spec fn spec_from_blob(raw: Seq<u8>) -> Result<Seq<KymaConcreteEvent>, DecodeError> {
    match spec_parse_envelope(raw) {
        Err(e) => Err(e),
        Ok(blob) => if blob.len() == 0 {
            Ok(Seq::empty())
        } else {
            match spec_resolve_payload(blob) {
                Err(e) => Err(e),
                Ok(data) => if data.len() % 8 != 0 {
                    Err(DecodeError::MisalignedRecordData)
                } else {
                    Ok(decoded_records(data))
                },
            }
        },
    }
}

// ---------------------------------------------------------------------------
// Executable byte readers
// ---------------------------------------------------------------------------

/// Reads four bytes as a big-endian unsigned 32-bit integer.
fn read_be_u32(b0: u8, b1: u8, b2: u8, b3: u8) -> (r: u32)
    ensures
        r as int == be_u32(b0, b1, b2, b3),
{
    (b0 as u32) * 0x100_0000 + (b1 as u32) * 0x1_0000 + (b2 as u32) * 0x100 + (b3 as u32)
}

/// Reads four bytes as a big-endian two's-complement signed 32-bit integer.
fn read_be_i32(b0: u8, b1: u8, b2: u8, b3: u8) -> (r: i32)
    ensures
        r as int == be_i32(b0, b1, b2, b3),
{
    let u = read_be_u32(b0, b1, b2, b3);
    if u <= 0x7fff_ffff {
        u as i32
    } else {
        ((u as i64) - 0x1_0000_0000i64) as i32
    }
}

// ---------------------------------------------------------------------------
// Envelope parser
// ---------------------------------------------------------------------------

/// Validates the OSC envelope and hands back the blob payload: exactly the
/// declared number of bytes after the length field, borrowed from `raw`.
pub fn parse_envelope<'a>(raw: &'a [u8]) -> (r: Result<&'a [u8], DecodeError>)
    ensures
        (match r {
            Ok(blob) => spec_parse_envelope(raw@) == Ok::<Seq<u8>, DecodeError>(blob@),
            Err(e) => spec_parse_envelope(raw@) == Err::<Seq<u8>, DecodeError>(e),
        }),
{
    let n = raw.len();
    if n < 12 {
        return Err(DecodeError::TooShort);
    }

    // Locate the address pattern's NUL terminator.
    let mut i: usize = 0;
    while i < n && raw[i] != 0
        invariant
            0 <= i <= n,
            n == raw@.len(),
            forall|j: int| 0 <= j < i ==> raw@[j] != 0,
        decreases n - i,
    {
        i = i + 1;
    }
    if i == n {
        assert(!has_zero_byte(raw@));
        return Err(DecodeError::MalformedAddress);
    }
    assert(has_zero_byte(raw@));

    // The address must be exactly "/vcs", NUL-terminated at index 4.
    if i != 4 || raw[0] != 0x2f || raw[1] != 0x76 || raw[2] != 0x63 || raw[3] != 0x73 {
        assert(!address_ok(raw@)) by {
            if address_ok(raw@) {
                assert(i == 4);
            }
        }
        return Err(DecodeError::UnexpectedAddress);
    }
    assert(address_ok(raw@));

    // The address field, padded to a 4-byte boundary, occupies 8 bytes; the
    // type-tag field at offset 8 must start with ",b".
    if raw[8] != 0x2c || raw[9] != 0x62 {
        return Err(DecodeError::InvalidTypeTag);
    }

    // The 4-byte big-endian blob length at offset 12.
    if n < 16 {
        return Err(DecodeError::TruncatedLength);
    }
    let blob_length = read_be_u32(raw[12], raw[13], raw[14], raw[15]) as usize;

    // The declared number of payload bytes at offset 16.
    if n - 16 < blob_length {
        return Err(DecodeError::TruncatedBlob);
    }
    let blob = vstd::slice::slice_subrange(raw, 16, 16 + blob_length);
    Ok(blob)
}

// ---------------------------------------------------------------------------
// Compression resolver
// ---------------------------------------------------------------------------

/// Produces the uncompressed record bytes from a (possibly compressed) blob
/// payload, trying the candidate formats in the fixed order of
/// `spec_resolve_payload`.
pub fn resolve_payload(blob: &[u8]) -> (r: Result<Vec<u8>, DecodeError>)
    ensures
        (match r {
            Ok(data) => spec_resolve_payload(blob@) == Ok::<Seq<u8>, DecodeError>(data@),
            Err(e) => spec_resolve_payload(blob@) == Err::<Seq<u8>, DecodeError>(e),
        }),
{
    if blob.len() == 0 {
        return Err(DecodeError::EmptyBlob);
    }
    // Strongest signal first: the whole payload as a raw DEFLATE stream.
    match inflate_raw(blob) {
        Some(data) => Ok(data),
        None => {
            if blob[0] == 0x3f {
                // Legacy senders mark a raw DEFLATE stream with '?'.
                match inflate_raw(vstd::slice::slice_subrange(blob, 1, blob.len())) {
                    Some(data) => {
                        assert(blob@.subrange(1, blob@.len() as int) =~= blob@.skip(1));
                        Ok(data)
                    },
                    None => {
                        assert(blob@.subrange(1, blob@.len() as int) =~= blob@.skip(1));
                        Err(DecodeError::DecompressionFailed)
                    },
                }
            } else if blob.len() >= 2 && blob[0] == 0x1f && blob[1] == 0x8b {
                // The GZIP magic number gates full GZIP decoding; a payload
                // that looks like GZIP but is not valid never falls through
                // to a verbatim reading.
                match gunzip(blob) {
                    Some(data) => Ok(data),
                    None => Err(DecodeError::InvalidGzip),
                }
            } else {
                Ok(vstd::slice::slice_to_vec(blob))
            }
        },
    }
}

// ---------------------------------------------------------------------------
// Record decoder
// ---------------------------------------------------------------------------

/// Decodes consecutive 8-byte windows into events, left to right. The
/// window count is exactly `data.len() / 8`; an empty input yields an empty
/// result.
pub fn decode_records(data: &[u8]) -> (r: Vec<KymaConcreteEvent>)
    requires
        data@.len() % 8 == 0,
    ensures
        r@ == decoded_records(data@),
{
    let n = data.len();
    let count = n / 8;
    let mut out: Vec<KymaConcreteEvent> = Vec::new();
    let mut i: usize = 0;
    while i < count
        invariant
            n == data@.len(),
            n % 8 == 0,
            count == n / 8,
            0 <= i <= count,
            out@.len() == i,
            forall|j: int| 0 <= j < i ==> out@[j] == record_at(data@, j),
        decreases count - i,
    {
        let base = 8 * i;
        let event_id = read_be_i32(data[base], data[base + 1], data[base + 2], data[base + 3]);
        let value_bits = read_be_u32(data[base + 4], data[base + 5], data[base + 6], data[base + 7]);
        out.push(KymaConcreteEvent { event_id, value_bits });
        i = i + 1;
    }
    assert(out@ =~= decoded_records(data@));
    out
}

// ---------------------------------------------------------------------------
// Whole-message decoders
// ---------------------------------------------------------------------------

/// Decodes a whole `/vcs` OSC message into its event records: envelope
/// validation, then compression resolution of a nonempty blob, then
/// record decoding. A zero-length blob is zero events, not an error.
pub fn from_blob(raw: &[u8]) -> (r: Result<Vec<KymaConcreteEvent>, DecodeError>)
    ensures
        (match r {
            Ok(events) => spec_from_blob(raw@) == Ok::<Seq<KymaConcreteEvent>, DecodeError>(
                events@,
            ),
            Err(e) => spec_from_blob(raw@) == Err::<Seq<KymaConcreteEvent>, DecodeError>(e),
        }),
{
    let blob = match parse_envelope(raw) {
        Ok(blob) => blob,
        Err(e) => {
            return Err(e);
        },
    };
    if blob.len() == 0 {
        return Ok(Vec::new());
    }
    let data = match resolve_payload(blob) {
        Ok(data) => data,
        Err(e) => {
            return Err(e);
        },
    };
    if data.len() % 8 != 0 {
        return Err(DecodeError::MisalignedRecordData);
    }
    Ok(decode_records(data.as_slice()))
}

/// The records of `data` as plain `(event_id, value bits)` pairs.
pub open spec fn decoded_pairs(data: Seq<u8>) -> Seq<(i32, u32)>
    recommends
        data.len() % 8 == 0,
{
    Seq::new((data.len() / 8) as nat, |i: int| (record_at(data, i).event_id, record_at(data, i).value_bits))
}

/// What decoding a message whose blob is always verbatim record bytes
/// yields: the envelope is validated and the payload, required to split
/// into whole 8-byte windows, is decoded without any decompression.
pub open spec fn spec_decode_simple(raw: Seq<u8>) -> Result<Seq<(i32, u32)>, DecodeError> {
    match spec_parse_envelope(raw) {
        Err(e) => Err(e),
        Ok(blob) => if blob.len() % 8 != 0 {
            Err(DecodeError::MisalignedRecordData)
        } else {
            Ok(decoded_pairs(blob))
        },
    }
}

/// Decodes a `/vcs` message whose blob carries the record bytes verbatim
/// (never compressed), as `(event_id, value bits)` pairs.
pub fn decode_kyma_vcs_event_blob(buf: &[u8]) -> (r: Result<Vec<(i32, u32)>, DecodeError>)
    ensures
        (match r {
            Ok(pairs) => spec_decode_simple(buf@) == Ok::<Seq<(i32, u32)>, DecodeError>(pairs@),
            Err(e) => spec_decode_simple(buf@) == Err::<Seq<(i32, u32)>, DecodeError>(e),
        }),
{
    let blob = match parse_envelope(buf) {
        Ok(blob) => blob,
        Err(e) => {
            return Err(e);
        },
    };
    if blob.len() % 8 != 0 {
        return Err(DecodeError::MisalignedRecordData);
    }
    let n = blob.len();
    let count = n / 8;
    let mut out: Vec<(i32, u32)> = Vec::new();
    let mut i: usize = 0;
    while i < count
        invariant
            n == blob@.len(),
            n % 8 == 0,
            count == n / 8,
            0 <= i <= count,
            out@.len() == i,
            forall|j: int| 0 <= j < i ==> out@[j] == (record_at(blob@, j).event_id, record_at(
                blob@,
                j,
            ).value_bits),
        decreases count - i,
    {
        let base = 8 * i;
        let event_id = read_be_i32(blob[base], blob[base + 1], blob[base + 2], blob[base + 3]);
        let value_bits = read_be_u32(blob[base + 4], blob[base + 5], blob[base + 6], blob[base + 7]);
        out.push((event_id, value_bits));
        i = i + 1;
    }
    assert(out@ =~= decoded_pairs(blob@));
    Ok(out)
}

} // verus!
