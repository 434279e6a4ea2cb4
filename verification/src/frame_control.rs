//! IEEE 802.15.4 Frame Control field: frame types, frame versions and a
//! reader/writer over the two little-endian octets of the field.

use vstd::prelude::*;

verus! {

/// IEEE 802.15.4 frame type.
#[derive(Debug, PartialEq, Eq, Structural, Clone, Copy)]
pub enum FrameType {
    /// Beacon frame.
    Beacon,
    /// Data frame.
    Data,
    /// Acknowledgement frame.
    Ack,
    /// MAC command frame.
    MacCommand,
    /// Multipurpose frame.
    Multipurpose,
    /// Fragmentation frame.
    FragmentOrFrak,
    /// Extended frame.
    Extended,
    /// Unknown frame type.
    Unknown,
}

impl FrameType {
    /// The numeric code of a frame type (the unknown frame type follows the
    /// last defined code).
    pub open spec fn code(self) -> u8 {
        match self {
            FrameType::Beacon => 0b000,
            FrameType::Data => 0b001,
            FrameType::Ack => 0b010,
            FrameType::MacCommand => 0b011,
            FrameType::Multipurpose => 0b101,
            FrameType::FragmentOrFrak => 0b110,
            FrameType::Extended => 0b111,
            FrameType::Unknown => 0b1000,
        }
    }

    /// The frame type that a 3-bit code denotes.
    pub open spec fn from_code(value: u8) -> FrameType {
        if value == 0b000 {
            FrameType::Beacon
        } else if value == 0b001 {
            FrameType::Data
        } else if value == 0b010 {
            FrameType::Ack
        } else if value == 0b011 {
            FrameType::MacCommand
        } else if value == 0b101 {
            FrameType::Multipurpose
        } else if value == 0b110 {
            FrameType::FragmentOrFrak
        } else if value == 0b111 {
            FrameType::Extended
        } else {
            FrameType::Unknown
        }
    }

    /// Returns the numeric code of the frame type.
    pub fn to_code(&self) -> (c: u8)
        ensures
            c == self.code(),
    {
        match self {
            FrameType::Beacon => 0b000,
            FrameType::Data => 0b001,
            FrameType::Ack => 0b010,
            FrameType::MacCommand => 0b011,
            FrameType::Multipurpose => 0b101,
            FrameType::FragmentOrFrak => 0b110,
            FrameType::Extended => 0b111,
            FrameType::Unknown => 0b1000,
        }
    }
}

impl From<u8> for FrameType {
    fn from(value: u8) -> (t: FrameType) {
        match value {
            0b000 => FrameType::Beacon,
            0b001 => FrameType::Data,
            0b010 => FrameType::Ack,
            0b011 => FrameType::MacCommand,
            0b101 => FrameType::Multipurpose,
            0b110 => FrameType::FragmentOrFrak,
            0b111 => FrameType::Extended,
            _ => FrameType::Unknown,
        }
    }
}

impl vstd::std_specs::convert::FromSpecImpl<u8> for FrameType {
    open spec fn obeys_from_spec() -> bool {
        true
    }

    open spec fn from_spec(value: u8) -> FrameType {
        FrameType::from_code(value)
    }
}

/// IEEE 802.15.4 frame version.
#[derive(Debug, PartialEq, Eq, Structural, Clone, Copy)]
pub enum FrameVersion {
    /// IEEE 802.15.4-2003 frame version.
    Ieee802154_2003,
    /// IEEE 802.15.4-2006 frame version.
    Ieee802154_2006,
    /// IEEE 802.15.4-2015 and beyond.
    Ieee802154,
    /// Unknown frame version.
    Unknown,
}

impl FrameVersion {
    /// The numeric code of a frame version (the unknown version follows the
    /// last defined code).
    pub open spec fn code(self) -> u8 {
        match self {
            FrameVersion::Ieee802154_2003 => 0b00,
            FrameVersion::Ieee802154_2006 => 0b01,
            FrameVersion::Ieee802154 => 0b10,
            FrameVersion::Unknown => 0b11,
        }
    }

    /// The frame version that a 2-bit code denotes.
    pub open spec fn from_code(value: u8) -> FrameVersion {
        if value == 0b00 {
            FrameVersion::Ieee802154_2003
        } else if value == 0b01 {
            FrameVersion::Ieee802154_2006
        } else if value == 0b10 {
            FrameVersion::Ieee802154
        } else {
            FrameVersion::Unknown
        }
    }

    /// Returns the numeric code of the frame version.
    pub fn to_code(&self) -> (c: u8)
        ensures
            c == self.code(),
    {
        match self {
            FrameVersion::Ieee802154_2003 => 0b00,
            FrameVersion::Ieee802154_2006 => 0b01,
            FrameVersion::Ieee802154 => 0b10,
            FrameVersion::Unknown => 0b11,
        }
    }
}

impl From<u8> for FrameVersion {
    fn from(value: u8) -> (v: FrameVersion) {
        match value {
            0b00 => FrameVersion::Ieee802154_2003,
            0b01 => FrameVersion::Ieee802154_2006,
            0b10 => FrameVersion::Ieee802154,
            _ => FrameVersion::Unknown,
        }
    }
}

impl vstd::std_specs::convert::FromSpecImpl<u8> for FrameVersion {
    open spec fn obeys_from_spec() -> bool {
        true
    }

    open spec fn from_spec(value: u8) -> FrameVersion {
        FrameVersion::from_code(value)
    }
}

} // verus!
