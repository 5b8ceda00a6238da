//! The decoded event record.

use vstd::prelude::*;

verus! {

/// One decoded control-value change: the identifier of the widget that
/// changed, and the new value as the big-endian bit pattern of a 32-bit
/// IEEE-754 float. The bits are kept unaltered (no NaN or infinity
/// filtering); callers that want the float reinterpret the bits.
#[derive(Clone, Copy, Debug, PartialEq, Eq, Structural)]
pub struct KymaConcreteEvent {
    pub event_id: i32,
    pub value_bits: u32,
}

impl Default for KymaConcreteEvent {
    /// The default event: widget 0 at value 0.0 (whose bit pattern is 0).
    fn default() -> (r: Self)
        ensures
            r.event_id == 0,
            r.value_bits == 0,
    {
        KymaConcreteEvent { event_id: 0, value_bits: 0 }
    }
}

} // verus!
