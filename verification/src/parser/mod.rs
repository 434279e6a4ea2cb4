//! Readers and writers for IEEE 802.15.4 frame fields.

pub mod frame_control;
pub mod addressing;
pub mod address_text;
pub mod mpdu;
