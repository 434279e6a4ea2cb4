//! Human-readable renderings of frame fields.

use vstd::prelude::*;

use crate::addressing::AddressingMode;
use crate::frame_control::{FrameType, FrameVersion};
use crate::parser::addressing::{Address, AddressingFields};
use crate::parser::frame_control::{fields_of, FrameControl, FrameControlFields};

verus! {

/// The hexadecimal digit of a value below 16, lowercase.
pub open spec fn hex_char(d: int) -> char {
    if d < 10 {
        (('0' as int) + d) as char
    } else {
        (('a' as int) + d - 10) as char
    }
}

/// Two lowercase hexadecimal digits of an octet.
pub open spec fn hex_octet(b: u8) -> Seq<char> {
    seq![hex_char((b / 16) as int), hex_char((b % 16) as int)]
}

/// Lowercase hexadecimal digits of a value, without leading zeros.
pub open spec fn hex_text(v: nat) -> Seq<char>
    decreases v,
{
    if v < 16 {
        seq![hex_char(v as int)]
    } else {
        hex_text(v / 16) + seq![hex_char((v % 16) as int)]
    }
}

/// A digit as a one-character string.
fn hex_digit_str(d: u8) -> (s: &'static str)
    requires
        d < 16,
    ensures
        s@ == seq![hex_char(d as int)],
{
    match d {
        0 => {
            proof {
                reveal_strlit("0");
            }
            "0"
        },
        1 => {
            proof {
                reveal_strlit("1");
            }
            "1"
        },
        2 => {
            proof {
                reveal_strlit("2");
            }
            "2"
        },
        3 => {
            proof {
                reveal_strlit("3");
            }
            "3"
        },
        4 => {
            proof {
                reveal_strlit("4");
            }
            "4"
        },
        5 => {
            proof {
                reveal_strlit("5");
            }
            "5"
        },
        6 => {
            proof {
                reveal_strlit("6");
            }
            "6"
        },
        7 => {
            proof {
                reveal_strlit("7");
            }
            "7"
        },
        8 => {
            proof {
                reveal_strlit("8");
            }
            "8"
        },
        9 => {
            proof {
                reveal_strlit("9");
            }
            "9"
        },
        10 => {
            proof {
                reveal_strlit("a");
            }
            "a"
        },
        11 => {
            proof {
                reveal_strlit("b");
            }
            "b"
        },
        12 => {
            proof {
                reveal_strlit("c");
            }
            "c"
        },
        13 => {
            proof {
                reveal_strlit("d");
            }
            "d"
        },
        14 => {
            proof {
                reveal_strlit("e");
            }
            "e"
        },
        _ => {
            proof {
                reveal_strlit("f");
            }
            "f"
        },
    }
}

/// Appends the two hexadecimal digits of an octet.
fn push_hex_octet(s: &mut String, b: u8)
    ensures
        final(s)@ == old(s)@ + hex_octet(b),
{
    s.append(hex_digit_str(b / 16));
    s.append(hex_digit_str(b % 16));
    assert(final(s)@ =~= old(s)@ + hex_octet(b));
}

/// Appends the hexadecimal digits of a value, without leading zeros.
fn push_hex(s: &mut String, v: u16)
    ensures
        final(s)@ == old(s)@ + hex_text(v as nat),
    decreases v,
{
    if v < 16 {
        s.append(hex_digit_str(v as u8));
    } else {
        push_hex(s, v / 16);
        s.append(hex_digit_str((v % 16) as u8));
        assert(final(s)@ =~= old(s)@ + hex_text(v as nat));
    }
}

/// The name of a frame type.
pub open spec fn frame_type_name(t: FrameType) -> Seq<char> {
    match t {
        FrameType::Beacon => "Beacon"@,
        FrameType::Data => "Data"@,
        FrameType::Ack => "Ack"@,
        FrameType::MacCommand => "MacCommand"@,
        FrameType::Multipurpose => "Multipurpose"@,
        FrameType::FragmentOrFrak => "FragmentOrFrak"@,
        FrameType::Extended => "Extended"@,
        FrameType::Unknown => "Unknown"@,
    }
}

fn frame_type_str(t: FrameType) -> (s: &'static str)
    ensures
        s@ == frame_type_name(t),
{
    match t {
        FrameType::Beacon => "Beacon",
        FrameType::Data => "Data",
        FrameType::Ack => "Ack",
        FrameType::MacCommand => "MacCommand",
        FrameType::Multipurpose => "Multipurpose",
        FrameType::FragmentOrFrak => "FragmentOrFrak",
        FrameType::Extended => "Extended",
        FrameType::Unknown => "Unknown",
    }
}

/// The name of an addressing mode.
pub open spec fn mode_name(m: AddressingMode) -> Seq<char> {
    match m {
        AddressingMode::Absent => "Absent"@,
        AddressingMode::Short => "Short"@,
        AddressingMode::Extended => "Extended"@,
        AddressingMode::Unknown => "Unknown"@,
    }
}

fn mode_str(m: AddressingMode) -> (s: &'static str)
    ensures
        s@ == mode_name(m),
{
    match m {
        AddressingMode::Absent => "Absent",
        AddressingMode::Short => "Short",
        AddressingMode::Extended => "Extended",
        AddressingMode::Unknown => "Unknown",
    }
}

/// The name of a frame version.
pub open spec fn version_name(v: FrameVersion) -> Seq<char> {
    match v {
        FrameVersion::Ieee802154_2003 => "Ieee802154_2003"@,
        FrameVersion::Ieee802154_2006 => "Ieee802154_2006"@,
        FrameVersion::Ieee802154 => "Ieee802154"@,
        FrameVersion::Unknown => "Unknown"@,
    }
}

fn version_str(v: FrameVersion) -> (s: &'static str)
    ensures
        s@ == version_name(v),
{
    match v {
        FrameVersion::Ieee802154_2003 => "Ieee802154_2003",
        FrameVersion::Ieee802154_2006 => "Ieee802154_2006",
        FrameVersion::Ieee802154 => "Ieee802154",
        FrameVersion::Unknown => "Unknown",
    }
}

/// A flag as `1` or `0`.
pub open spec fn flag_text(b: bool) -> Seq<char> {
    if b {
        "1"@
    } else {
        "0"@
    }
}

fn flag_str(b: bool) -> (s: &'static str)
    ensures
        s@ == flag_text(b),
{
    if b {
        "1"
    } else {
        "0"
    }
}

/// The rendering of a Frame Control field: a title line and one line per
/// sub-field.
pub open spec fn frame_control_text(f: FrameControlFields) -> Seq<char> {
    "Frame Control\n"@ + "  type: "@ + frame_type_name(f.frame_type) + "\n"@
        + "  security enabled: "@ + flag_text(f.security_enabled) + "\n"@ + "  frame pending: "@
        + flag_text(f.frame_pending) + "\n"@ + "  ack request: "@ + flag_text(f.ack_request)
        + "\n"@ + "  pan id compression: "@ + flag_text(f.pan_id_compression) + "\n"@
        + "  sequence number suppression: "@ + flag_text(f.sequence_number_suppression) + "\n"@
        + "  information elements present: "@ + flag_text(f.information_elements_present)
        + "\n"@ + "  dst addressing mode: "@ + mode_name(f.dst_addressing_mode) + "\n"@
        + "  src addressing mode: "@ + mode_name(f.src_addressing_mode) + "\n"@
        + "  frame version: "@ + version_name(f.frame_version) + "\n"@
}

impl FrameControl {
    /// Renders the field: a title line and one line per sub-field.
    pub fn to_string(&self) -> (s: String)
        requires
            self.wf(),
        ensures
            s@ == frame_control_text(fields_of(self.raw())),
    {
        let mut s = String::new();
        s.append("Frame Control\n");
        s.append("  type: ");
        s.append(frame_type_str(self.frame_type()));
        s.append("\n");
        s.append("  security enabled: ");
        s.append(flag_str(self.security_enabled()));
        s.append("\n");
        s.append("  frame pending: ");
        s.append(flag_str(self.frame_pending()));
        s.append("\n");
        s.append("  ack request: ");
        s.append(flag_str(self.ack_request()));
        s.append("\n");
        s.append("  pan id compression: ");
        s.append(flag_str(self.pan_id_compression()));
        s.append("\n");
        s.append("  sequence number suppression: ");
        s.append(flag_str(self.sequence_number_suppression()));
        s.append("\n");
        s.append("  information elements present: ");
        s.append(flag_str(self.information_elements_present()));
        s.append("\n");
        s.append("  dst addressing mode: ");
        s.append(mode_str(self.dst_addressing_mode()));
        s.append("\n");
        s.append("  src addressing mode: ");
        s.append(mode_str(self.src_addressing_mode()));
        s.append("\n");
        s.append("  frame version: ");
        s.append(version_str(self.frame_version()));
        s.append("\n");
        s
    }
}

/// Colon-separated hexadecimal octets.
pub open spec fn octets_text(b: Seq<u8>) -> Seq<char>
    decreases b.len(),
{
    if b.len() == 0 {
        Seq::empty()
    } else if b.len() == 1 {
        hex_octet(b[0])
    } else {
        octets_text(b.drop_last()) + ":"@ + hex_octet(b.last())
    }
}

/// The rendering of an address: `absent`, or its octets in hexadecimal.
pub open spec fn address_text(a: Address) -> Seq<char> {
    match a {
        Address::Absent => "absent"@,
        _ => octets_text(a.spec_bytes()),
    }
}

impl Address {
    /// Renders the address: `absent`, or its octets as colon-separated
    /// lowercase hexadecimal pairs.
    pub fn to_string(&self) -> (s: String)
        ensures
            s@ == address_text(*self),
    {
        let mut s = String::new();
        if self.is_absent() {
            s.append("absent");
            return s;
        }
        let bytes = self.as_bytes();
        let mut i: usize = 0;
        while i < bytes.len()
            invariant
                i <= bytes@.len(),
                bytes@ == self.spec_bytes(),
                bytes@.len() > 0,
                s@ == octets_text(bytes@.subrange(0, i as int)),
            decreases bytes@.len() - i,
        {
            if i > 0 {
                s.append(":");
            }
            push_hex_octet(&mut s, bytes[i]);
            proof {
                let prefix = bytes@.subrange(0, i + 1);
                assert(prefix.drop_last() =~= bytes@.subrange(0, i as int));
                if i == 0 {
                    assert(bytes@.subrange(0, 0) =~= Seq::<u8>::empty());
                    reveal_strlit(":");
                }
            }
            i = i + 1;
        }
        assert(bytes@.subrange(0, bytes@.len() as int) =~= bytes@);
        s
    }
}

/// A line `  <label>: <hex PAN ID>` for a two-octet field, nothing for an
/// elided one.
pub open spec fn pan_line(label: Seq<char>, field: Seq<u8>) -> Seq<char> {
    if field.len() == 0 {
        Seq::empty()
    } else {
        "  "@ + label + ": "@ + hex_text(crate::parser::addressing::le_u16(field[0], field[1]) as nat)
            + "\n"@
    }
}

/// A line `  <label>: <address>` for a present address field, nothing for
/// an absent one.
pub open spec fn address_line(label: Seq<char>, field: Seq<u8>) -> Seq<char> {
    if field.len() == 0 {
        Seq::empty()
    } else {
        "  "@ + label + ": "@ + octets_text(field) + "\n"@
    }
}

/// The rendering of Addressing Fields: a title line and a line for each
/// present PAN ID and address.
pub open spec fn addressing_fields_text(f: AddressingFields) -> Seq<char> {
    "Addressing Fields\n"@ + pan_line("dst pan id"@, f.field(0)) + address_line(
        "dst address"@,
        f.field(1),
    ) + pan_line("src pan id"@, f.field(2)) + address_line("src address"@, f.field(3))
}

fn push_pan_line(s: &mut String, label: &str, pan_id: Option<crate::parser::addressing::PanId>, Ghost(field): Ghost<Seq<u8>>)
    requires
        field.len() == 0 ==> pan_id is None,
        field.len() != 0 ==> (pan_id matches Some(p) && p@ == field),
    ensures
        final(s)@ == old(s)@ + pan_line(label@, field),
{
    match pan_id {
        Some(p) => {
            s.append("  ");
            s.append(label);
            s.append(": ");
            push_hex(s, p.into_u16());
            s.append("\n");
            assert(final(s)@ =~= old(s)@ + pan_line(label@, field));
        },
        None => {
            assert(final(s)@ =~= old(s)@ + pan_line(label@, field));
        },
    }
}

fn push_address_line(s: &mut String, label: &str, address: Option<Address>, Ghost(field): Ghost<Seq<u8>>)
    requires
        field.len() == 0 ==> address is None,
        field.len() != 0 ==> (address matches Some(a) && a.spec_bytes() == field && !(a is Absent)),
    ensures
        final(s)@ == old(s)@ + address_line(label@, field),
{
    match address {
        Some(a) => {
            s.append("  ");
            s.append(label);
            s.append(": ");
            let text = a.to_string();
            s.append(text.as_str());
            s.append("\n");
            assert(final(s)@ =~= old(s)@ + address_line(label@, field));
        },
        None => {
            assert(final(s)@ =~= old(s)@ + address_line(label@, field));
        },
    }
}

impl AddressingFields {
    /// Renders the fields: a title line and a line for each present PAN ID
    /// (hexadecimal) and address.
    pub fn to_string(&self) -> (s: String)
        ensures
            s@ == addressing_fields_text(*self),
    {
        let mut s = String::new();
        s.append("Addressing Fields\n");
        push_pan_line(&mut s, "dst pan id", self.dst_pan_id(), Ghost(self.field(0)));
        push_address_line(&mut s, "dst address", self.dst_address(), Ghost(self.field(1)));
        push_pan_line(&mut s, "src pan id", self.src_pan_id(), Ghost(self.field(2)));
        push_address_line(&mut s, "src address", self.src_address(), Ghost(self.field(3)));
        assert(s@ =~= addressing_fields_text(*self));
        s
    }
}

} // verus!
