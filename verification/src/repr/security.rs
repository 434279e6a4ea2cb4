//! Auxiliary security header representation.

use vstd::prelude::*;

verus! {

/// Security level of a secured frame.
#[derive(Debug, PartialEq, Eq, Structural, Clone, Copy)]
pub enum SecurityLevelRepr {
    Mic32,
    Mic64,
    Mic128,
    EncMic32,
    EncMic64,
    EncMic128,
}

impl SecurityLevelRepr {
    /// Length of the message integrity code.
    pub open spec fn spec_mic_length(self) -> u16 {
        match self {
            SecurityLevelRepr::Mic32 | SecurityLevelRepr::EncMic32 => 32,
            SecurityLevelRepr::Mic64 | SecurityLevelRepr::EncMic64 => 64,
            SecurityLevelRepr::Mic128 | SecurityLevelRepr::EncMic128 => 128,
        }
    }

    /// Length of the message integrity code.
    pub fn mic_length(&self) -> (len: u16)
        ensures
            len == self.spec_mic_length(),
            (*self == SecurityLevelRepr::Mic32 || *self == SecurityLevelRepr::EncMic32) ==> len == 32,
            (*self == SecurityLevelRepr::Mic64 || *self == SecurityLevelRepr::EncMic64) ==> len == 64,
            (*self == SecurityLevelRepr::Mic128 || *self == SecurityLevelRepr::EncMic128) ==> len
                == 128,
    {
        match self {
            SecurityLevelRepr::Mic32 | SecurityLevelRepr::EncMic32 => 32,
            SecurityLevelRepr::Mic64 | SecurityLevelRepr::EncMic64 => 64,
            SecurityLevelRepr::Mic128 | SecurityLevelRepr::EncMic128 => 128,
        }
    }
}

/// Key identifier mode of a secured frame.
#[derive(Debug, PartialEq, Eq, Structural, Clone, Copy)]
pub enum KeyIdRepr {
    Implicit,
    SourceNone,
    Source4Byte,
    Source8Byte,
}

impl KeyIdRepr {
    /// Length in octets of the key identifier field.
    pub open spec fn spec_key_id_length(self) -> u16 {
        match self {
            KeyIdRepr::Implicit => 0,
            KeyIdRepr::SourceNone => 1,
            KeyIdRepr::Source4Byte => 5,
            KeyIdRepr::Source8Byte => 9,
        }
    }

    /// Length in octets of the key identifier field.
    pub fn key_id_length(&self) -> (len: u16)
        ensures
            len == self.spec_key_id_length(),
    {
        match self {
            KeyIdRepr::Implicit => 0,
            KeyIdRepr::SourceNone => 1,
            KeyIdRepr::Source4Byte => 5,
            KeyIdRepr::Source8Byte => 9,
        }
    }
}

/// Length of the security control field.
pub const SECURITY_CONTROL_LENGTH: u16 = 1;

/// Length of the frame counter field (absent in TSCH mode).
pub const FRAME_COUNTER_LENGTH: u16 = 4;

/// Representation of the auxiliary security header of a frame.
#[derive(Debug, PartialEq, Eq, Structural, Clone, Copy)]
pub struct SecurityRepr {
    pub tsch_mode: bool,
    pub security_level: SecurityLevelRepr,
    pub key_id: KeyIdRepr,
}

impl SecurityRepr {
    /// Length of the auxiliary security header: security control, frame
    /// counter unless in TSCH mode, and key identifier.
    pub open spec fn spec_aux_sec_header_length(self) -> u16 {
        (SECURITY_CONTROL_LENGTH + (if self.tsch_mode { 0u16 } else { FRAME_COUNTER_LENGTH })
            + self.key_id.spec_key_id_length()) as u16
    }

    /// Create a security representation.
    pub fn new(tsch_mode: bool, security_level: SecurityLevelRepr, key_id: KeyIdRepr) -> (s: Self)
        ensures
            s.tsch_mode == tsch_mode,
            s.security_level == security_level,
            s.key_id == key_id,
    {
        SecurityRepr { tsch_mode, security_level, key_id }
    }

    /// Length of the auxiliary security header.
    pub fn aux_sec_header_length(&self) -> (len: u16)
        ensures
            len == self.spec_aux_sec_header_length(),
            len == 1 + (if self.tsch_mode { 0int } else { 4int }) + self.key_id.spec_key_id_length(),
    {
        let frame_counter_len: u16 = if self.tsch_mode { 0 } else { FRAME_COUNTER_LENGTH };
        SECURITY_CONTROL_LENGTH + frame_counter_len + self.key_id.key_id_length()
    }

    /// Length of the message integrity code.
    pub fn mic_length(&self) -> (len: u16)
        ensures
            len == self.security_level.spec_mic_length(),
            (self.security_level == SecurityLevelRepr::Mic32 || self.security_level
                == SecurityLevelRepr::EncMic32) ==> len == 32,
            (self.security_level == SecurityLevelRepr::Mic64 || self.security_level
                == SecurityLevelRepr::EncMic64) ==> len == 64,
            (self.security_level == SecurityLevelRepr::Mic128 || self.security_level
                == SecurityLevelRepr::EncMic128) ==> len == 128,
    {
        self.security_level.mic_length()
    }
}

/// The MIC length of a security level is 32, 64 or 128 as its name says,
/// with or without encryption; encryption does not change it, and the three
/// strengths are distinct and ordered.
pub proof fn law_mic_length_table()
    ensures
        SecurityLevelRepr::Mic32.spec_mic_length() == 32,
        SecurityLevelRepr::EncMic32.spec_mic_length() == 32,
        SecurityLevelRepr::Mic64.spec_mic_length() == 64,
        SecurityLevelRepr::EncMic64.spec_mic_length() == 64,
        SecurityLevelRepr::Mic128.spec_mic_length() == 128,
        SecurityLevelRepr::EncMic128.spec_mic_length() == 128,
        forall|l: SecurityLevelRepr|
            #![trigger l.spec_mic_length()]
            l.spec_mic_length() == 32 || l.spec_mic_length() == 64 || l.spec_mic_length() == 128,
        SecurityLevelRepr::Mic32.spec_mic_length() < SecurityLevelRepr::Mic64.spec_mic_length()
            < SecurityLevelRepr::Mic128.spec_mic_length(),
{
}

} // verus!
