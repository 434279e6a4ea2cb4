//! Decision logic of the nRF52840 radio and radio timer drivers.

pub mod radio;
pub mod timer;
