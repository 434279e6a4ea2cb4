//! Buffer-backed frames across network layers: converting between
//! layer-specific representations hands over the buffer.

use vstd::prelude::*;

verus! {

/// A buffer-backed entity.
pub trait IntoBuffer {
    /// Consumes the entity and returns the underlying raw buffer.
    fn into_buffer(self) -> Vec<u8>;
}

/// A buffer-backed structured frame providing access to its protocol data
/// unit (the frame including its current layer protocol's header and footer).
pub trait FramePdu: IntoBuffer {
    /// The representation of the PDU.
    type Pdu: ?Sized;

    /// Exposes a read-only, possibly structured representation of the
    /// frame's PDU.
    fn pdu_ref(&self) -> &Self::Pdu;
}

/// A buffer-backed structured frame providing access to its service data
/// unit (its payload) and protocol data unit.
pub trait Frame: FramePdu {
    /// Retrieves the frame's SDU for reading.
    fn sdu_ref(&self) -> &[u8];
}

} // verus!
