//! Structural representations of MPDU parts: just enough information to size
//! and lay out a frame.

pub mod addressing;
pub mod security;
pub mod seq_nr;
pub mod mpdu;
