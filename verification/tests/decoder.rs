//! End-to-end tests of the `/vcs` message decoder.

use decode_kyma_vcs_event::{
    decode_kyma_vcs_event_blob, from_blob, resolve_payload, DecodeError, KymaConcreteEvent,
};
use std::io::Write;

/// Builds a well-formed `/vcs,b` message around the given blob payload.
fn message_with_blob(blob: &[u8]) -> Vec<u8> {
    let mut message = Vec::new();
    message.extend_from_slice(b"/vcs\0\0\0\0");
    message.extend_from_slice(b",b\0\0");
    message.extend_from_slice(&(blob.len() as u32).to_be_bytes());
    message.extend_from_slice(blob);
    message
}

/// The uncompressed blob bytes for a list of (event_id, value) records.
fn records_blob(records: &[(i32, f32)]) -> Vec<u8> {
    let mut blob = Vec::new();
    for &(event_id, value) in records {
        blob.extend_from_slice(&event_id.to_be_bytes());
        blob.extend_from_slice(&value.to_bits().to_be_bytes());
    }
    blob
}

fn deflate_compress(data: &[u8]) -> Vec<u8> {
    let mut encoder =
        flate2::write::DeflateEncoder::new(Vec::new(), flate2::Compression::default());
    encoder.write_all(data).unwrap();
    encoder.finish().unwrap()
}

fn gzip_compress(data: &[u8]) -> Vec<u8> {
    let mut encoder = flate2::write::GzEncoder::new(Vec::new(), flate2::Compression::default());
    encoder.write_all(data).unwrap();
    encoder.finish().unwrap()
}

#[test]
fn test_uncompressed_data() {
    // Create a simple OSC message with /vcs address and blob data
    let mut message = Vec::new();

    // Address: "/vcs\0"
    message.extend_from_slice(b"/vcs\0\0\0\0");

    // Type tag: ",b\0\0"
    message.extend_from_slice(b",b\0\0");

    // Blob length: 8 bytes (1 event)
    message.extend_from_slice(&[0, 0, 0, 8]);

    // Blob data: one event with id=42, value=3.14
    message.extend_from_slice(&[0, 0, 0, 42]); // event_id = 42
    message.extend_from_slice(&[0x40, 0x48, 0xf5, 0xc3]); // value = 3.14

    // Parse the message
    let result = from_blob(&message).unwrap();

    // Verify the result
    assert_eq!(result.len(), 1);
    assert_eq!(result[0].event_id, 42);
    assert!((f32::from_bits(result[0].value_bits) - 3.14).abs() < 0.001);
}

#[test]
fn test_compressed_data() {
    // Create a simple OSC message with /vcs address and compressed blob data
    let mut message = Vec::new();

    // Address: "/vcs\0"
    message.extend_from_slice(b"/vcs\0\0\0\0");

    // Type tag: ",b\0\0"
    message.extend_from_slice(b",b\0\0");

    // Create the raw event data
    let mut event_data = Vec::new();
    event_data.extend_from_slice(&[0, 0, 0, 123]); // event_id = 123
    event_data.extend_from_slice(&[0xbf, 0x9d, 0x70, 0xa4]); // value = -1.23

    // Stand-in bytes in place of properly compressed event data
    let compressed_data = vec![0x73, 0x74, 0x75, 0x62];

    // Add the '?' prefix for Kyma compressed data
    let mut blob_data = vec![b'?'];
    blob_data.extend_from_slice(&compressed_data);

    // Add blob length
    message.extend_from_slice(&(blob_data.len() as u32).to_be_bytes());

    // Add blob data
    message.extend_from_slice(&blob_data);

    // The stand-in bytes are not real compressed event data, so nothing is
    // asserted of the outcome; the decode must merely not panic.
    let _ = from_blob(&message);
    let _ = event_data;
}

#[test]
fn concrete_scenario_single_record() {
    // "/vcs\0\0\0\0" + ",b\0\0" + u32_be(8) + i32_be(42) + f32_be(3.14)
    let blob = records_blob(&[(42, 3.14)]);
    let message = message_with_blob(&blob);
    let result = from_blob(&message).unwrap();
    assert_eq!(result.len(), 1);
    assert_eq!(result[0].event_id, 42);
    assert_eq!(result[0].value_bits, 0x4048f5c3);
}

#[test]
fn concrete_scenario_zero_length_blob() {
    // "/vcs\0\0\0\0" + ",b\0\0" + u32_be(0)
    let message = message_with_blob(&[]);
    assert_eq!(from_blob(&message), Ok(vec![]));
}

#[test]
fn round_trip_uncompressed() {
    let records = [(1, 0.5f32), (-7, -1.23), (0x1234_5678, 100.0)];
    let blob = records_blob(&records);
    let message = message_with_blob(&blob);
    let result = from_blob(&message).unwrap();
    assert_eq!(result.len(), records.len());
    for (decoded, &(event_id, value)) in result.iter().zip(records.iter()) {
        assert_eq!(decoded.event_id, event_id);
        assert_eq!(decoded.value_bits, value.to_bits());
    }
}

#[test]
fn deflate_transparency_bare() {
    let records = [(3, 1.25f32), (4, -2.5), (5, 0.0), (-100, 1e10)];
    let blob = records_blob(&records);
    let compressed = deflate_compress(&blob);
    assert_ne!(compressed, blob);
    let plain = from_blob(&message_with_blob(&blob)).unwrap();
    let inflated = from_blob(&message_with_blob(&compressed)).unwrap();
    assert_eq!(plain, inflated);
    assert_eq!(inflated.len(), records.len());
    assert_eq!(inflated[3].event_id, -100);
}

#[test]
fn deflate_transparency_marked() {
    let records = [(9, 0.25f32), (10, 8.0)];
    let blob = records_blob(&records);
    let mut marked = vec![b'?'];
    marked.extend_from_slice(&deflate_compress(&blob));
    let plain = from_blob(&message_with_blob(&blob)).unwrap();
    let inflated = from_blob(&message_with_blob(&marked)).unwrap();
    assert_eq!(plain, inflated);
}

#[test]
fn gzip_transparency() {
    let records = [(11, 7.5f32), (12, -0.125)];
    let blob = records_blob(&records);
    let gzipped = gzip_compress(&blob);
    assert_eq!(&gzipped[0..2], &[0x1f, 0x8b]);
    let plain = from_blob(&message_with_blob(&blob)).unwrap();
    let gunzipped = from_blob(&message_with_blob(&gzipped)).unwrap();
    assert_eq!(plain, gunzipped);
}

#[test]
fn corrupt_gzip_is_rejected() {
    // GZIP magic bytes followed by bytes that are not a valid GZIP member.
    let blob = [0x1f, 0x8b, 0xff, 0x00, 0x11, 0x22, 0x33, 0x44];
    let message = message_with_blob(&blob);
    assert_eq!(from_blob(&message), Err(DecodeError::InvalidGzip));
}

#[test]
fn misaligned_record_data_is_rejected() {
    // 7 verbatim bytes: not a DEFLATE stream, no marker, no GZIP magic.
    let blob = [1, 2, 3, 4, 5, 6, 7];
    let message = message_with_blob(&blob);
    assert_eq!(from_blob(&message), Err(DecodeError::MisalignedRecordData));
}

#[test]
fn unexpected_address_is_rejected() {
    let mut message = Vec::new();
    message.extend_from_slice(b"/other\0\0");
    message.extend_from_slice(b",b\0\0");
    message.extend_from_slice(&8u32.to_be_bytes());
    message.extend_from_slice(&records_blob(&[(1, 1.0)]));
    assert_eq!(from_blob(&message), Err(DecodeError::UnexpectedAddress));
}

#[test]
fn truncated_blob_is_rejected() {
    // Declares 16 blob bytes but supplies only 8.
    let mut message = Vec::new();
    message.extend_from_slice(b"/vcs\0\0\0\0");
    message.extend_from_slice(b",b\0\0");
    message.extend_from_slice(&16u32.to_be_bytes());
    message.extend_from_slice(&records_blob(&[(1, 1.0)]));
    assert_eq!(from_blob(&message), Err(DecodeError::TruncatedBlob));
}

#[test]
fn too_short_is_rejected() {
    assert_eq!(from_blob(b"/vcs\0"), Err(DecodeError::TooShort));
}

#[test]
fn malformed_address_is_rejected() {
    // Long enough, but no NUL terminator anywhere.
    let message = [b'x'; 16];
    assert_eq!(from_blob(&message), Err(DecodeError::MalformedAddress));
}

#[test]
fn invalid_type_tag_is_rejected() {
    let mut message = Vec::new();
    message.extend_from_slice(b"/vcs\0\0\0\0");
    message.extend_from_slice(b",i\0\0");
    message.extend_from_slice(&0u32.to_be_bytes());
    assert_eq!(from_blob(&message), Err(DecodeError::InvalidTypeTag));
}

#[test]
fn truncated_length_is_rejected() {
    // Ends right before the blob-length field.
    let message = b"/vcs\0\0\0\0,b\0\0";
    assert_eq!(from_blob(message), Err(DecodeError::TruncatedLength));
}

#[test]
fn marked_garbage_fails_decompression() {
    // '?' followed by bytes that are not a valid DEFLATE stream.
    let blob = [b'?', 0xff, 0xff, 0xff];
    let message = message_with_blob(&blob);
    assert_eq!(from_blob(&message), Err(DecodeError::DecompressionFailed));
}

#[test]
fn trailing_bytes_after_blob_are_ignored() {
    let blob = records_blob(&[(42, 3.14)]);
    let mut message = message_with_blob(&blob);
    message.extend_from_slice(b"junk after the declared blob");
    let result = from_blob(&message).unwrap();
    assert_eq!(result.len(), 1);
    assert_eq!(result[0].event_id, 42);

    let mut empty_message = message_with_blob(&[]);
    empty_message.extend_from_slice(&[0xde, 0xad]);
    assert_eq!(from_blob(&empty_message), Ok(vec![]));
}

#[test]
fn envelope_yields_exactly_the_declared_payload() {
    let blob = records_blob(&[(8, 2.0), (9, 4.0)]);
    let mut message = message_with_blob(&blob);
    message.extend_from_slice(&[0xee; 5]);
    assert_eq!(decode_kyma_vcs_event::parse_envelope(&message), Ok(&blob[..]));
}

#[test]
fn deflate_lookalike_resolves_as_compressed() {
    // This record blob happens to be a valid raw DEFLATE stream (a final
    // stored block of 3 bytes), so the resolver decompresses it instead of
    // reading it verbatim — the documented ambiguity of the protocol. The
    // 3 decompressed bytes then fail the alignment check.
    let blob = [0x01, 0x03, 0x00, 0xfc, 0xff, 0xaa, 0xbb, 0xcc];
    assert_eq!(resolve_payload(&blob), Ok(vec![0xaa, 0xbb, 0xcc]));
    let message = message_with_blob(&blob);
    assert_eq!(from_blob(&message), Err(DecodeError::MisalignedRecordData));
}

#[test]
fn test_vcs_decoder() {
    let buf = b"/vcs\0\0\0\0,b\0\0\0\0\0\0\0\0"; // Empty blob
    assert_eq!(decode_kyma_vcs_event_blob(buf), Ok(vec![]));
}

#[test]
fn simple_decoder_reads_verbatim_records() {
    let blob = records_blob(&[(42, 3.14), (-7, -1.23)]);
    let message = message_with_blob(&blob);
    let pairs = decode_kyma_vcs_event_blob(&message).unwrap();
    assert_eq!(pairs, vec![(42, 3.14f32.to_bits()), (-7, (-1.23f32).to_bits())]);
}

#[test]
fn simple_decoder_rejects_misaligned_blob() {
    let message = message_with_blob(&[1, 2, 3, 4]);
    assert_eq!(decode_kyma_vcs_event_blob(&message), Err(DecodeError::MisalignedRecordData));
}

#[test]
fn empty_payload_has_no_records() {
    // The resolver itself refuses an empty payload; the whole-message
    // decoder never hands it one, because a zero-length blob is already
    // zero events.
    assert_eq!(resolve_payload(&[]), Err(DecodeError::EmptyBlob));
}

#[test]
fn resolver_reads_plain_bytes_verbatim() {
    let blob = records_blob(&[(6, 1.5)]);
    assert_eq!(resolve_payload(&blob), Ok(blob));
}

#[test]
fn default_event_is_zero() {
    let event = KymaConcreteEvent::default();
    assert_eq!(event.event_id, 0);
    assert_eq!(event.value_bits, 0);
    assert_eq!(f32::from_bits(event.value_bits), 0.0);
}
