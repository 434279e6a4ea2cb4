//! Sequence number presence.

use vstd::prelude::*;

verus! {

/// Whether a sequence number field is present in a frame.
#[derive(Debug, PartialEq, Eq, Structural, Clone, Copy)]
pub enum SeqNrRepr {
    /// A sequence number is present in the frame.
    Yes,
    /// The sequence number is suppressed.
    No,
}

impl SeqNrRepr {
    /// Length in octets of the sequence number field.
    pub open spec fn spec_length(self) -> u16 {
        match self {
            SeqNrRepr::Yes => 1,
            SeqNrRepr::No => 0,
        }
    }

    /// Length in octets of the sequence number field.
    pub fn length(&self) -> (len: u16)
        ensures
            len == self.spec_length(),
    {
        match self {
            SeqNrRepr::Yes => 1,
            SeqNrRepr::No => 0,
        }
    }
}

} // verus!
