//! IEEE 802.15.4 addressing modes.

use vstd::prelude::*;

verus! {

/// IEEE 802.15.4 addressing mode.
#[derive(Debug, PartialEq, Eq, Structural, Clone, Copy)]
pub enum AddressingMode {
    /// The address is absent.
    Absent,
    /// The address is a short address.
    Short,
    /// The address is an extended address.
    Extended,
    /// Unknown addressing mode.
    Unknown,
}

impl AddressingMode {
    /// The numeric code of an addressing mode (the unknown mode follows the
    /// last defined code).
    pub open spec fn code(self) -> u8 {
        match self {
            AddressingMode::Absent => 0b00,
            AddressingMode::Short => 0b10,
            AddressingMode::Extended => 0b11,
            AddressingMode::Unknown => 0b100,
        }
    }

    /// The addressing mode that a 2-bit code denotes.
    pub open spec fn from_code(value: u8) -> AddressingMode {
        if value == 0b00 {
            AddressingMode::Absent
        } else if value == 0b10 {
            AddressingMode::Short
        } else if value == 0b11 {
            AddressingMode::Extended
        } else {
            AddressingMode::Unknown
        }
    }

    /// Whether the mode is one of the three defined modes.
    pub open spec fn is_known(self) -> bool {
        self != AddressingMode::Unknown
    }

    /// Length in octets of an address with a known addressing mode.
    pub open spec fn spec_length(self) -> u16 {
        match self {
            AddressingMode::Absent => 0,
            AddressingMode::Short => 2,
            AddressingMode::Extended => 8,
            AddressingMode::Unknown => 0,
        }
    }

    /// Lengths of the known addressing modes.
    pub proof fn lemma_length_ok(self)
        ensures
            self.spec_length() == 0 || self.spec_length() == 2 || self.spec_length() == 8,
            self.spec_length() == 0 <==> (self == AddressingMode::Absent || self
                == AddressingMode::Unknown),
    {
    }

    /// Returns the numeric code of the addressing mode.
    pub fn to_code(&self) -> (c: u8)
        ensures
            c == self.code(),
    {
        match self {
            AddressingMode::Absent => 0b00,
            AddressingMode::Short => 0b10,
            AddressingMode::Extended => 0b11,
            AddressingMode::Unknown => 0b100,
        }
    }

    /// Length of an address with the given addressing mode.
    ///
    /// The unknown addressing mode has no length.
    pub fn length(&self) -> (len: u16)
        requires
            self.is_known(),
        ensures
            len == self.spec_length(),
    {
        match self {
            AddressingMode::Absent => 0,
            AddressingMode::Short => 2,
            AddressingMode::Extended => 8,
            AddressingMode::Unknown => unreached(),
        }
    }

    /// Size in octets of an address with the given addressing mode; an
    /// unknown addressing mode occupies no octets.
    pub fn size(&self) -> (size: u16)
        ensures
            size == self.spec_length(),
    {
        match self {
            AddressingMode::Absent => 0,
            AddressingMode::Short => 2,
            AddressingMode::Extended => 8,
            AddressingMode::Unknown => 0,
        }
    }
}

impl From<u8> for AddressingMode {
    fn from(value: u8) -> (m: AddressingMode) {
        match value {
            0b00 => AddressingMode::Absent,
            0b10 => AddressingMode::Short,
            0b11 => AddressingMode::Extended,
            _ => AddressingMode::Unknown,
        }
    }
}

impl vstd::std_specs::convert::FromSpecImpl<u8> for AddressingMode {
    open spec fn obeys_from_spec() -> bool {
        true
    }

    open spec fn from_spec(value: u8) -> AddressingMode {
        AddressingMode::from_code(value)
    }
}

} // verus!
