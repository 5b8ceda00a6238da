//! Decoder for the Kyma `/vcs` OSC message: an address pattern `/vcs`, a
//! `,b` type tag, and a length-prefixed blob of big-endian
//! `[event_id: i32][value bits: u32]` records, where the blob body may be
//! raw-DEFLATE compressed (optionally marked with a leading `'?'`),
//! GZIP compressed, or verbatim.

pub mod codec;
pub mod compress;
pub mod error;
pub mod event;
pub mod laws;

pub use crate::codec::{decode_kyma_vcs_event_blob, decode_records, from_blob, parse_envelope,
    resolve_payload};
pub use crate::error::DecodeError;
pub use crate::event::KymaConcreteEvent;
