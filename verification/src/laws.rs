//! The properties the decoder is relied on for, stated over the decoder's
//! model and proved: round-trip of an encoded message, transparency of the
//! compressed forms, and the rejection laws for malformed buffers.

use vstd::prelude::*;

use crate::codec::{
    address_ok, be_u32, decoded_records, has_zero_byte, record_at, spec_blob_length,
    spec_from_blob, spec_parse_envelope, spec_resolve_payload, type_tag_ok,
};
use crate::compress::{gunzip_of, raw_inflate_of};
use crate::error::DecodeError;
use crate::event::KymaConcreteEvent;

verus! {

// ---------------------------------------------------------------------------
// The encoding model: what a sender that compresses nothing puts on the wire
// ---------------------------------------------------------------------------

/// The four bytes of an unsigned 32-bit value in big-endian order.
pub open spec fn be_bytes_of(v: int) -> Seq<u8>
    recommends
        0 <= v < 0x1_0000_0000,
{
    seq![
        (v / 0x100_0000) as u8,
        ((v / 0x1_0000) % 0x100) as u8,
        ((v / 0x100) % 0x100) as u8,
        (v % 0x100) as u8,
    ]
}

/// The unsigned 32-bit value whose two's-complement reading is `id`.
pub open spec fn unsigned_of_i32(id: i32) -> int {
    if id < 0 {
        id + 0x1_0000_0000
    } else {
        id as int
    }
}

/// The 8 blob bytes of one record: the big-endian event identifier, then
/// the big-endian value bits.
pub open spec fn record_bytes(e: KymaConcreteEvent) -> Seq<u8> {
    be_bytes_of(unsigned_of_i32(e.event_id)) + be_bytes_of(e.value_bits as int)
}

/// The uncompressed blob for a record sequence: the records in order,
/// 8 bytes each.
pub open spec fn records_bytes(events: Seq<KymaConcreteEvent>) -> Seq<u8> {
    Seq::new((8 * events.len()) as nat, |i: int| record_bytes(events[i / 8])[i % 8])
}

/// A whole `/vcs` message around a blob payload: the NUL-terminated,
/// padded address pattern, the padded `,b` type tag, the payload's length
/// in big-endian, then the payload itself.
pub open spec fn message_with_blob(payload: Seq<u8>) -> Seq<u8>
    recommends
        payload.len() < 0x1_0000_0000,
{
    seq![0x2fu8, 0x76u8, 0x63u8, 0x73u8, 0u8, 0u8, 0u8, 0u8, 0x2cu8, 0x62u8, 0u8, 0u8]
        + be_bytes_of(payload.len() as int) + payload
}

/// The canonical uncompressed message for a record sequence.
pub open spec fn encoded_message(events: Seq<KymaConcreteEvent>) -> Seq<u8>
    recommends
        8 * events.len() < 0x1_0000_0000,
{
    message_with_blob(records_bytes(events))
}

// ---------------------------------------------------------------------------
// Byte-level round-trip
// ---------------------------------------------------------------------------

/// Reading back the big-endian bytes of a 32-bit value yields the value.
pub proof fn lemma_be_u32_of_bytes(v: int)
    requires
        0 <= v < 0x1_0000_0000,
    ensures
        be_u32(be_bytes_of(v)[0], be_bytes_of(v)[1], be_bytes_of(v)[2], be_bytes_of(v)[3]) == v,
{
    assert((v / 0x100_0000) * 0x100_0000 + ((v / 0x1_0000) % 0x100) * 0x1_0000 + ((v / 0x100)
        % 0x100) * 0x100 + (v % 0x100) == v) by (nonlinear_arith)
        requires
            0 <= v < 0x1_0000_0000,
    ;
}

/// Parsing the envelope of a well-formed message yields exactly its payload.
pub proof fn lemma_parse_message_with_blob(payload: Seq<u8>)
    requires
        payload.len() < 0x1_0000_0000,
    ensures
        spec_parse_envelope(message_with_blob(payload)) == Ok::<Seq<u8>, DecodeError>(payload),
{
    let raw = message_with_blob(payload);
    assert(raw.len() == 16 + payload.len());
    assert(raw[4] == 0);
    assert(has_zero_byte(raw));
    assert(address_ok(raw));
    assert(type_tag_ok(raw));
    lemma_be_u32_of_bytes(payload.len() as int);
    assert(raw[12] == be_bytes_of(payload.len() as int)[0]);
    assert(raw[13] == be_bytes_of(payload.len() as int)[1]);
    assert(raw[14] == be_bytes_of(payload.len() as int)[2]);
    assert(raw[15] == be_bytes_of(payload.len() as int)[3]);
    assert(spec_blob_length(raw) == payload.len());
    assert(raw.subrange(16, 16 + payload.len() as int) =~= payload);
}

/// Decoding the blob bytes of a record sequence yields the sequence back.
pub proof fn lemma_records_bytes_roundtrip(events: Seq<KymaConcreteEvent>)
    ensures
        records_bytes(events).len() == 8 * events.len(),
        records_bytes(events).len() % 8 == 0,
        decoded_records(records_bytes(events)) == events,
{
    let data = records_bytes(events);
    assert forall|i: int| 0 <= i < events.len() implies record_at(data, i) == events[i] by {
        let e = events[i];
        let rb = record_bytes(e);
        assert((8 * i + 0) / 8 == i && (8 * i + 0) % 8 == 0);
        assert((8 * i + 1) / 8 == i && (8 * i + 1) % 8 == 1);
        assert((8 * i + 2) / 8 == i && (8 * i + 2) % 8 == 2);
        assert((8 * i + 3) / 8 == i && (8 * i + 3) % 8 == 3);
        assert((8 * i + 4) / 8 == i && (8 * i + 4) % 8 == 4);
        assert((8 * i + 5) / 8 == i && (8 * i + 5) % 8 == 5);
        assert((8 * i + 6) / 8 == i && (8 * i + 6) % 8 == 6);
        assert((8 * i + 7) / 8 == i && (8 * i + 7) % 8 == 7);
        assert(data[8 * i] == rb[0]);
        assert(data[8 * i + 1] == rb[1]);
        assert(data[8 * i + 2] == rb[2]);
        assert(data[8 * i + 3] == rb[3]);
        assert(data[8 * i + 4] == rb[4]);
        assert(data[8 * i + 5] == rb[5]);
        assert(data[8 * i + 6] == rb[6]);
        assert(data[8 * i + 7] == rb[7]);
        lemma_be_u32_of_bytes(unsigned_of_i32(e.event_id));
        lemma_be_u32_of_bytes(e.value_bits as int);
        assert(be_u32(data[8 * i], data[8 * i + 1], data[8 * i + 2], data[8 * i + 3])
            == unsigned_of_i32(e.event_id));
        assert(be_u32(data[8 * i + 4], data[8 * i + 5], data[8 * i + 6], data[8 * i + 7])
            == e.value_bits);
    }
    assert(decoded_records(data) =~= events);
}

// ---------------------------------------------------------------------------
// The decoder's laws
// ---------------------------------------------------------------------------

/// Round-trip: a record sequence encoded as an uncompressed `/vcs` message
/// decodes to exactly the original sequence, in order. The resolver tries
/// decompression before a verbatim reading, so the law excludes the blobs
/// that masquerade as a compressed payload: one that is itself a valid raw
/// DEFLATE stream, or one whose first record begins with the `'?'` marker
/// byte or with the GZIP magic number.
pub proof fn lemma_round_trip(events: Seq<KymaConcreteEvent>)
    requires
        8 * events.len() < 0x1_0000_0000,
        events.len() > 0 ==> raw_inflate_of(records_bytes(events)) is None,
        events.len() > 0 ==> records_bytes(events)[0] != 0x3f,
        events.len() > 0 ==> !(records_bytes(events)[0] == 0x1f && records_bytes(events)[1]
            == 0x8b),
    ensures
        spec_from_blob(encoded_message(events)) == Ok::<Seq<KymaConcreteEvent>, DecodeError>(
            events,
        ),
{
    let blob = records_bytes(events);
    lemma_parse_message_with_blob(blob);
    lemma_records_bytes_roundtrip(events);
    if events.len() == 0 {
        assert(events =~= Seq::<KymaConcreteEvent>::empty());
    }
}

/// Compression transparency, bare form: a message whose blob is a raw
/// DEFLATE stream that decompresses to the record bytes decodes to the
/// same records as the uncompressed message would.
pub proof fn lemma_deflate_transparency(events: Seq<KymaConcreteEvent>, blob: Seq<u8>)
    requires
        0 < blob.len() < 0x1_0000_0000,
        raw_inflate_of(blob) == Some(records_bytes(events)),
    ensures
        spec_from_blob(message_with_blob(blob)) == Ok::<Seq<KymaConcreteEvent>, DecodeError>(
            events,
        ),
{
    lemma_parse_message_with_blob(blob);
    lemma_records_bytes_roundtrip(events);
}

/// Compression transparency, marked form: a message whose blob is the
/// `'?'` marker followed by a raw DEFLATE stream of the record bytes
/// decodes to the same records, whenever the marked blob as a whole is not
/// itself a valid DEFLATE stream (when it is, the resolver prefers that
/// reading by design).
pub proof fn lemma_marked_deflate_transparency(events: Seq<KymaConcreteEvent>, blob: Seq<u8>)
    requires
        0 < blob.len() < 0x1_0000_0000,
        blob[0] == 0x3f,
        raw_inflate_of(blob) is None,
        raw_inflate_of(blob.skip(1)) == Some(records_bytes(events)),
    ensures
        spec_from_blob(message_with_blob(blob)) == Ok::<Seq<KymaConcreteEvent>, DecodeError>(
            events,
        ),
{
    lemma_parse_message_with_blob(blob);
    lemma_records_bytes_roundtrip(events);
}

/// GZIP transparency: a message whose blob is a full GZIP member holding
/// the record bytes decodes to the same records, whenever the blob is not
/// itself a valid raw DEFLATE stream (which the resolver tries first, by
/// design). The GZIP magic number rules the `'?'` marker path out.
pub proof fn lemma_gzip_transparency(events: Seq<KymaConcreteEvent>, blob: Seq<u8>)
    requires
        2 <= blob.len() < 0x1_0000_0000,
        blob[0] == 0x1f,
        blob[1] == 0x8b,
        raw_inflate_of(blob) is None,
        gunzip_of(blob) == Some(records_bytes(events)),
    ensures
        spec_from_blob(message_with_blob(blob)) == Ok::<Seq<KymaConcreteEvent>, DecodeError>(
            events,
        ),
{
    lemma_parse_message_with_blob(blob);
    lemma_records_bytes_roundtrip(events);
}

/// GZIP rejection: a blob that begins with the GZIP magic number but is
/// not valid GZIP data fails with `InvalidGzip` — it is never read
/// verbatim (again excepting a blob that is a valid raw DEFLATE stream,
/// which the resolver takes first).
pub proof fn lemma_corrupt_gzip_rejected(blob: Seq<u8>)
    requires
        2 <= blob.len() < 0x1_0000_0000,
        blob[0] == 0x1f,
        blob[1] == 0x8b,
        raw_inflate_of(blob) is None,
        gunzip_of(blob) is None,
    ensures
        spec_from_blob(message_with_blob(blob)) == Err::<Seq<KymaConcreteEvent>, DecodeError>(
            DecodeError::InvalidGzip,
        ),
{
    lemma_parse_message_with_blob(blob);
}

/// Zero-length blob: a message declaring `blob_length = 0` decodes to an
/// empty sequence without error, whatever bytes trail the message.
pub proof fn lemma_zero_length_blob(trailing: Seq<u8>)
    ensures
        spec_from_blob(message_with_blob(Seq::empty()) + trailing) == Ok::<
            Seq<KymaConcreteEvent>,
            DecodeError,
        >(Seq::empty()),
{
    let raw = message_with_blob(Seq::empty()) + trailing;
    assert(raw.len() == 16 + trailing.len());
    assert(raw[4] == 0);
    assert(has_zero_byte(raw));
    assert(address_ok(raw));
    assert(type_tag_ok(raw));
    assert(raw[12] == 0 && raw[13] == 0 && raw[14] == 0 && raw[15] == 0);
    assert(spec_blob_length(raw) == 0);
    assert(raw.subrange(16, 16) =~= Seq::<u8>::empty());
}

/// Misalignment: when the resolved payload's length is not a multiple of
/// the 8-byte record size, the decode fails with `MisalignedRecordData`.
pub proof fn lemma_misaligned_rejected(blob: Seq<u8>, data: Seq<u8>)
    requires
        0 < blob.len() < 0x1_0000_0000,
        spec_resolve_payload(blob) == Ok::<Seq<u8>, DecodeError>(data),
        data.len() % 8 != 0,
    ensures
        spec_from_blob(message_with_blob(blob)) == Err::<Seq<KymaConcreteEvent>, DecodeError>(
            DecodeError::MisalignedRecordData,
        ),
{
    lemma_parse_message_with_blob(blob);
}

/// Address mismatch: a buffer long enough for the envelope whose address
/// pattern is NUL-terminated but is not exactly `/vcs` fails with
/// `UnexpectedAddress`; the blob is never looked at.
pub proof fn lemma_unexpected_address(raw: Seq<u8>)
    requires
        raw.len() >= 12,
        has_zero_byte(raw),
        !address_ok(raw),
    ensures
        spec_from_blob(raw) == Err::<Seq<KymaConcreteEvent>, DecodeError>(
            DecodeError::UnexpectedAddress,
        ),
{
}

/// Truncation: a message whose envelope is well-formed but which declares
/// more blob bytes than the buffer holds fails with `TruncatedBlob`.
pub proof fn lemma_truncated_blob(raw: Seq<u8>)
    requires
        raw.len() >= 16,
        has_zero_byte(raw),
        address_ok(raw),
        type_tag_ok(raw),
        raw.len() - 16 < spec_blob_length(raw),
    ensures
        spec_from_blob(raw) == Err::<Seq<KymaConcreteEvent>, DecodeError>(
            DecodeError::TruncatedBlob,
        ),
{
}

} // verus!

