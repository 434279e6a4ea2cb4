//! Verified IEEE 802.15.4 frame handling, radio timing and MAC decision logic.
#![allow(unused_imports)]

pub mod addressing;
pub mod channel;
pub mod coprocessor;
pub mod driver;
pub mod frame;
pub mod frame_control;
pub mod mac;
pub mod mpdu;
pub mod nrf;
pub mod parser;
pub mod repr;
pub mod sync;
pub mod text;
pub mod time;

use vstd::prelude::*;

verus! {

/// An error that can occur when reading or writing an IEEE 802.15.4 frame.
#[derive(Debug, Clone, Copy, PartialEq, Eq, Structural)]
pub struct Error;

} // verus!
