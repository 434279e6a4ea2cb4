//! Addressing representation: which addresses and PAN IDs a frame carries.
//!
//! The rules follow IEEE 802.15.4-2024, section 7.2.2.6: frames of the
//! 2003/2006 versions elide the source PAN ID when both addresses are present
//! and the PAN IDs are equal; frames of the 2015 version and beyond decide
//! presence from the addressing modes and the PAN ID Compression field.

use vstd::prelude::*;

use crate::addressing::AddressingMode;
use crate::frame_control::FrameVersion;
use crate::parser::frame_control::{fields_of, FrameControl};
use crate::Error;

verus! {

/// How the PAN ID Compression field is interpreted.
#[derive(Debug, PartialEq, Eq, Structural, Clone, Copy)]
pub enum PanIdCompressionRepr {
    /// 2015+ frame with the PAN ID Compression field set.
    Yes,
    /// 2015+ frame with the PAN ID Compression field cleared.
    No,
    /// 2003/2006 frame: compression is derived from equal PAN IDs.
    Legacy,
}

/// Whether an addressing mode denotes a present address.
pub open spec fn is_present(m: AddressingMode) -> bool {
    m == AddressingMode::Short || m == AddressingMode::Extended
}

/// Presence of the addressing fields, as
/// `(dst PAN ID present, dst mode, src PAN ID present, src mode)`, or `None`
/// where the combination is invalid.
pub open spec fn present_flags(
    dst: AddressingMode,
    src: AddressingMode,
    pan_ids_equal: bool,
    compression: PanIdCompressionRepr,
) -> Option<(bool, AddressingMode, bool, AddressingMode)> {
    let absent = AddressingMode::Absent;
    match compression {
        PanIdCompressionRepr::Legacy => {
            if is_present(dst) && is_present(src) {
                Some((true, dst, !pan_ids_equal, src))
            } else if dst == absent && is_present(src) {
                Some((false, absent, true, src))
            } else if is_present(dst) && src == absent {
                Some((true, dst, false, absent))
            } else {
                None
            }
        },
        _ => {
            let c = compression == PanIdCompressionRepr::Yes;
            if dst == absent && src == absent {
                Some((c, absent, false, absent))
            } else if is_present(dst) && src == absent {
                Some((!c, dst, false, absent))
            } else if dst == absent && is_present(src) {
                Some((false, absent, !c, src))
            } else if dst == AddressingMode::Extended && src == AddressingMode::Extended {
                Some((!c, dst, false, src))
            } else if is_present(dst) && is_present(src) {
                Some((true, dst, !c, src))
            } else {
                None
            }
        },
    }
}

/// Lengths `[dst PAN ID, dst address, src PAN ID, src address]` derived from
/// presence flags.
pub open spec fn lengths_of(f: (bool, AddressingMode, bool, AddressingMode)) -> [u16; 4] {
    [
        if f.0 { 2u16 } else { 0u16 },
        f.1.spec_length(),
        if f.2 { 2u16 } else { 0u16 },
        f.3.spec_length(),
    ]
}

/// The total length of the addressing fields.
pub open spec fn total_of(l: [u16; 4]) -> int {
    l[0] + l[1] + l[2] + l[3]
}

/// Representation of the addressing configuration of a frame.
#[derive(Debug, PartialEq, Eq, Structural, Clone, Copy)]
pub struct AddressingRepr {
    pub(crate) dst: AddressingMode,
    pub(crate) src: AddressingMode,
    pub(crate) pan_ids_equal: bool,
    pub(crate) pan_id_compression: PanIdCompressionRepr,
}

impl AddressingRepr {
    /// Both addressing modes are known.
    #[verifier::type_invariant]
    pub closed spec fn inv(self) -> bool {
        self.dst != AddressingMode::Unknown && self.src != AddressingMode::Unknown
    }

    /// Destination addressing mode.
    pub closed spec fn spec_dst(self) -> AddressingMode {
        self.dst
    }

    /// Source addressing mode.
    pub closed spec fn spec_src(self) -> AddressingMode {
        self.src
    }

    /// Whether destination and source PAN IDs are equal.
    pub closed spec fn spec_pan_ids_equal(self) -> bool {
        self.pan_ids_equal
    }

    /// Interpretation of the PAN ID Compression field.
    pub closed spec fn spec_compression(self) -> PanIdCompressionRepr {
        self.pan_id_compression
    }

    /// Presence flags of this representation.
    pub open spec fn flags(self) -> Option<(bool, AddressingMode, bool, AddressingMode)> {
        present_flags(self.spec_dst(), self.spec_src(), self.spec_pan_ids_equal(), self.spec_compression())
    }

    /// Field lengths of this representation, where valid.
    pub open spec fn lengths(self) -> Option<[u16; 4]> {
        match self.flags() {
            Some(f) => Some(lengths_of(f)),
            None => None,
        }
    }

    /// Total addressing fields length of this representation, where valid.
    pub open spec fn fields_length(self) -> Option<int> {
        match self.lengths() {
            Some(l) => Some(total_of(l)),
            None => None,
        }
    }

    /// Instantiate a new addressing representation.
    ///
    /// The given addressing modes must be known (i.e. absent, short or
    /// extended).
    pub fn new(
        dst: AddressingMode,
        src: AddressingMode,
        pan_ids_equal: bool,
        pan_id_compression: PanIdCompressionRepr,
    ) -> (r: Self)
        requires
            dst != AddressingMode::Unknown,
            src != AddressingMode::Unknown,
        ensures
            r.spec_dst() == dst,
            r.spec_src() == src,
            r.spec_pan_ids_equal() == pan_ids_equal,
            r.spec_compression() == pan_id_compression,
    {
        AddressingRepr { dst, src, pan_ids_equal, pan_id_compression }
    }

    /// Instantiate a new addressing representation with pre IEEE
    /// 802.15.4-2015 addressing mode.
    pub fn new_legacy_addressing(dst: AddressingMode, src: AddressingMode, pan_ids_equal: bool) -> (r: Self)
        requires
            dst != AddressingMode::Unknown,
            src != AddressingMode::Unknown,
        ensures
            r.spec_dst() == dst,
            r.spec_src() == src,
            r.spec_pan_ids_equal() == pan_ids_equal,
            r.spec_compression() == PanIdCompressionRepr::Legacy,
    {
        Self::new(dst, src, pan_ids_equal, PanIdCompressionRepr::Legacy)
    }

    /// Destination addressing mode.
    pub(crate) fn dst_addr_mode(&self) -> (m: AddressingMode)
        ensures
            m == self.spec_dst(),
            m != AddressingMode::Unknown,
    {
        proof {
            use_type_invariant(self);
        }
        self.dst
    }

    /// Source addressing mode.
    pub(crate) fn src_addr_mode(&self) -> (m: AddressingMode)
        ensures
            m == self.spec_src(),
            m != AddressingMode::Unknown,
    {
        proof {
            use_type_invariant(self);
        }
        self.src
    }

    /// Returns `(dst_pan_id_present, dst_address_mode, src_pan_id_present,
    /// src_address_mode)`.
    pub(crate) fn address_present_flags(&self) -> (res: Result<(bool, AddressingMode, bool, AddressingMode), Error>)
        ensures
            match self.flags() {
                Some(f) => res == Ok::<_, Error>(f),
                None => res is Err,
            },
    {
        proof {
            use_type_invariant(self);
        }
        let absent = AddressingMode::Absent;
        match self.pan_id_compression {
            PanIdCompressionRepr::Legacy => {
                let dst_present = !matches!(self.dst, AddressingMode::Absent);
                let src_present = !matches!(self.src, AddressingMode::Absent);
                if dst_present && src_present {
                    // Equal PAN IDs elide the source PAN ID.
                    Ok((true, self.dst, !self.pan_ids_equal, self.src))
                } else if src_present {
                    Ok((false, absent, true, self.src))
                } else if dst_present {
                    Ok((true, self.dst, false, absent))
                } else {
                    Err(Error)
                }
            },
            _ => {
                let c = matches!(self.pan_id_compression, PanIdCompressionRepr::Yes);
                match (self.dst, self.src) {
                    (AddressingMode::Absent, AddressingMode::Absent) => Ok((c, absent, false, absent)),
                    (dst, AddressingMode::Absent) => Ok((!c, dst, false, absent)),
                    (AddressingMode::Absent, src) => Ok((false, absent, !c, src)),
                    (AddressingMode::Extended, AddressingMode::Extended) => Ok(
                        (!c, AddressingMode::Extended, false, AddressingMode::Extended),
                    ),
                    (dst, src) => Ok((true, dst, !c, src)),
                }
            },
        }
    }

    /// Returns `[dst_pan_id_len, dst_address_len, src_pan_id_len,
    /// src_address_len]`.
    pub(crate) fn addressing_fields_lengths(&self) -> (res: Result<[u16; 4], Error>)
        ensures
            match self.lengths() {
                Some(l) => res == Ok::<_, Error>(l),
                None => res is Err,
            },
    {
        match self.address_present_flags() {
            Ok((dst_pan_id_present, dst_mode, src_pan_id_present, src_mode)) => {
                proof {
                    use_type_invariant(self);
                }
                let l = [
                    if dst_pan_id_present { 2u16 } else { 0u16 },
                    dst_mode.length(),
                    if src_pan_id_present { 2u16 } else { 0u16 },
                    src_mode.length(),
                ];
                assert(l@ =~= lengths_of((dst_pan_id_present, dst_mode, src_pan_id_present, src_mode))@);
                Ok(l)
            },
            Err(e) => Err(e),
        }
    }
}

/// PAN ID compression interpretation and PAN ID equality that a Frame
/// Control field with the given frame version, addressing modes and PAN ID
/// Compression bit implies (IEEE 802.15.4-2024, section 7.2.2.6).
pub open spec fn compression_of(
    version: FrameVersion,
    dst: AddressingMode,
    src: AddressingMode,
    bit: bool,
) -> (PanIdCompressionRepr, bool) {
    if version == FrameVersion::Ieee802154 {
        (
            if bit { PanIdCompressionRepr::Yes } else { PanIdCompressionRepr::No },
            (dst == AddressingMode::Short || src == AddressingMode::Short) && bit,
        )
    } else {
        (
            PanIdCompressionRepr::Legacy,
            dst != AddressingMode::Absent && src != AddressingMode::Absent && bit,
        )
    }
}

/// Whether a 2003/2006 frame carries exactly one address while its PAN ID
/// Compression field is set: the addressing table makes this invalid.
pub open spec fn legacy_compression_invalid(
    version: FrameVersion,
    dst: AddressingMode,
    src: AddressingMode,
    bit: bool,
) -> bool {
    &&& version != FrameVersion::Ieee802154
    &&& bit
    &&& (dst == AddressingMode::Absent) != (src == AddressingMode::Absent)
}

/// Presence flags of the addressing fields that a Frame Control field with
/// the given frame version, addressing modes and PAN ID Compression field
/// implies, or `None` where the combination is invalid.
pub open spec fn fc_flags(
    version: FrameVersion,
    dst: AddressingMode,
    src: AddressingMode,
    bit: bool,
) -> Option<(bool, AddressingMode, bool, AddressingMode)> {
    if legacy_compression_invalid(version, dst, src, bit) {
        None
    } else {
        let (c, eq) = compression_of(version, dst, src, bit);
        present_flags(dst, src, eq, c)
    }
}

impl AddressingRepr {
    /// The PAN ID Compression field value that this representation implies.
    pub open spec fn spec_pan_id_compression(self) -> bool {
        match self.spec_compression() {
            PanIdCompressionRepr::Yes => true,
            PanIdCompressionRepr::No => false,
            PanIdCompressionRepr::Legacy => is_present(self.spec_dst()) && is_present(
                self.spec_src(),
            ) && self.spec_pan_ids_equal(),
        }
    }

    /// Whether this representation has the given parts.
    pub open spec fn has_parts(
        self,
        dst: AddressingMode,
        src: AddressingMode,
        pan_ids_equal: bool,
        compression: PanIdCompressionRepr,
    ) -> bool {
        &&& self.spec_dst() == dst
        &&& self.spec_src() == src
        &&& self.spec_pan_ids_equal() == pan_ids_equal
        &&& self.spec_compression() == compression
    }

    /// Addressing fields length.
    pub fn addressing_fields_length(&self) -> (res: Result<u16, Error>)
        ensures
            match self.fields_length() {
                Some(n) => res == Ok::<u16, Error>(n as u16) && n <= 20,
                None => res is Err,
            },
    {
        match self.addressing_fields_lengths() {
            Ok(l) => {
                proof {
                    use_type_invariant(self);
                }
                Ok(l[0] + l[1] + l[2] + l[3])
            },
            Err(e) => Err(e),
        }
    }

    /// Pan ID compression
    pub fn pan_id_compression(&self) -> (b: bool)
        ensures
            b == self.spec_pan_id_compression(),
            self.spec_compression() == PanIdCompressionRepr::Yes ==> b,
            self.spec_compression() == PanIdCompressionRepr::No ==> !b,
            self.spec_compression() == PanIdCompressionRepr::Legacy ==> (b <==> (
            self.spec_dst() != AddressingMode::Absent && self.spec_src() != AddressingMode::Absent
                && self.spec_pan_ids_equal())),
    {
        proof {
            use_type_invariant(self);
        }
        match self.pan_id_compression {
            PanIdCompressionRepr::Yes => true,
            PanIdCompressionRepr::No => false,
            PanIdCompressionRepr::Legacy => {
                let dst_present = matches!(self.dst, AddressingMode::Short | AddressingMode::Extended);
                let src_present = matches!(self.src, AddressingMode::Short | AddressingMode::Extended);
                dst_present && src_present && self.pan_ids_equal
            },
        }
    }

    /// Returns `[dst_pan_id_range, dst_address_range, src_pan_id_range,
    /// src_address_range]`: consecutive ranges from offset zero with the
    /// lengths of [`Self::addressing_fields_lengths`].
    pub(crate) fn addressing_fields_ranges(&self) -> (res: Result<
        (core::ops::Range<usize>, core::ops::Range<usize>, core::ops::Range<usize>, core::ops::Range<usize>),
        Error,
    >)
        ensures
            match self.lengths() {
                Some(l) => res matches Ok(r) && {
                    &&& r.0.start == 0
                    &&& r.0.end == l[0]
                    &&& r.1.start == r.0.end
                    &&& r.1.end == r.1.start + l[1]
                    &&& r.2.start == r.1.end
                    &&& r.2.end == r.2.start + l[2]
                    &&& r.3.start == r.2.end
                    &&& r.3.end == r.3.start + l[3]
                },
                None => res is Err,
            },
    {
        match self.addressing_fields_lengths() {
            Ok(l) => {
                proof {
                    use_type_invariant(self);
                }
                let dst_addr_offset = l[0] as usize;
                let src_pan_id_offset = dst_addr_offset + l[1] as usize;
                let src_addr_offset = src_pan_id_offset + l[2] as usize;
                let last_byte = src_addr_offset + l[3] as usize;
                Ok(
                    (
                        0..dst_addr_offset,
                        dst_addr_offset..src_pan_id_offset,
                        src_pan_id_offset..src_addr_offset,
                        src_addr_offset..last_byte,
                    ),
                )
            },
            Err(e) => Err(e),
        }
    }

    /// Derive the addressing representation from a Frame Control field.
    ///
    /// Returns `Ok(None)` when the frame carries no addressing fields, and an
    /// error when the addressing modes are an invalid combination, including
    /// a 2003/2006 frame with a single address and PAN ID Compression set.
    ///
    /// The frame version and the addressing modes must be known.
    pub fn from_frame_control(frame_control: &FrameControl) -> (res: Result<Option<Self>, Error>)
        requires
            frame_control.wf(),
            fields_of(frame_control.raw()).frame_version != FrameVersion::Unknown,
            fields_of(frame_control.raw()).dst_addressing_mode != AddressingMode::Unknown,
            fields_of(frame_control.raw()).src_addressing_mode != AddressingMode::Unknown,
        ensures
            ({
                let f = fields_of(frame_control.raw());
                let (c, eq) = compression_of(
                    f.frame_version,
                    f.dst_addressing_mode,
                    f.src_addressing_mode,
                    f.pan_id_compression,
                );
                match fc_flags(
                    f.frame_version,
                    f.dst_addressing_mode,
                    f.src_addressing_mode,
                    f.pan_id_compression,
                ) {
                    None => res is Err,
                    Some(flags) => if total_of(lengths_of(flags)) == 0 {
                        res == Ok::<Option<Self>, Error>(None)
                    } else {
                        res matches Ok(Some(r)) && r.has_parts(
                            f.dst_addressing_mode,
                            f.src_addressing_mode,
                            eq,
                            c,
                        )
                    },
                }
            }),
    {
        let dst = frame_control.dst_addressing_mode();
        let src = frame_control.src_addressing_mode();
        let bit = frame_control.pan_id_compression();
        let (pan_id_compression, pan_ids_equal) = match frame_control.frame_version() {
            FrameVersion::Ieee802154 => {
                let pan_id_compression = if bit {
                    PanIdCompressionRepr::Yes
                } else {
                    PanIdCompressionRepr::No
                };
                // With both addresses present and either one short, the PAN
                // IDs are equal if and only if compression is set.
                let pan_ids_equal = (matches!(dst, AddressingMode::Short) || matches!(
                    src,
                    AddressingMode::Short
                )) && bit;
                (pan_id_compression, pan_ids_equal)
            },
            _ => {
                // A single address must not come with PAN ID compression.
                if bit && (matches!(dst, AddressingMode::Absent) != matches!(
                    src,
                    AddressingMode::Absent
                )) {
                    return Err(Error);
                }
                // With both addresses present, compression signals equal PAN
                // IDs.
                let pan_ids_equal = !matches!(dst, AddressingMode::Absent) && !matches!(
                    src,
                    AddressingMode::Absent
                ) && bit;
                (PanIdCompressionRepr::Legacy, pan_ids_equal)
            },
        };
        let addressing = Self::new(dst, src, pan_ids_equal, pan_id_compression);
        let len = addressing.addressing_fields_length()?;
        if len == 0 {
            Ok(None)
        } else {
            Ok(Some(addressing))
        }
    }
}

/// The PAN ID Compression field that a representation implies: for a
/// 2015+ frame it is set exactly when the representation says so; for a
/// 2003/2006 frame exactly when both addresses are present and the PAN IDs
/// are equal.
pub proof fn law_pan_id_compression_field(r: AddressingRepr)
    requires
        r.spec_dst() != AddressingMode::Unknown,
        r.spec_src() != AddressingMode::Unknown,
    ensures
        r.spec_compression() == PanIdCompressionRepr::Yes ==> r.spec_pan_id_compression(),
        r.spec_compression() == PanIdCompressionRepr::No ==> !r.spec_pan_id_compression(),
        r.spec_compression() == PanIdCompressionRepr::Legacy ==> (r.spec_pan_id_compression() <==> (
        r.spec_dst() != AddressingMode::Absent && r.spec_src() != AddressingMode::Absent
            && r.spec_pan_ids_equal())),
{
}

} // verus!
