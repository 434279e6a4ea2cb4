//! Reader/writer for the IEEE 802.15.4 Frame Control field.
//!
//! The field consists of two octets holding a little-endian 16-bit value:
//! bits 0-2 frame type, bit 3 security enabled, bit 4 frame pending, bit 5
//! acknowledgement request, bit 6 PAN ID compression, bit 8 sequence number
//! suppression, bit 9 information elements present, bits 10-11 destination
//! addressing mode, bits 12-13 frame version, bits 14-15 source addressing
//! mode.

use vstd::prelude::*;

use crate::addressing::AddressingMode;
use crate::frame_control::{FrameType, FrameVersion};
use crate::Error;

verus! {

/// The 16-bit value of the field whose first (low) octet is `b0`.
pub open spec fn raw_of(b0: u8, b1: u8) -> u16 {
    (b0 as u16) | ((b1 as u16) << 8u16)
}

/// The frame type encoded in a raw field value.
pub open spec fn frame_type_of(r: u16) -> FrameType {
    FrameType::from_code((r & 0b111u16) as u8)
}

/// The single-bit flag at bit position `k`.
pub open spec fn flag_of(r: u16, k: u16) -> bool {
    ((r >> k) & 1u16) == 1u16
}

/// The two-bit sub-field starting at bit position `k`.
pub open spec fn two_bits_of(r: u16, k: u16) -> u8 {
    ((r >> k) & 0b11u16) as u8
}

/// The destination addressing mode encoded in a raw field value.
pub open spec fn dst_mode_of(r: u16) -> AddressingMode {
    AddressingMode::from_code(two_bits_of(r, 10))
}

/// The source addressing mode encoded in a raw field value.
pub open spec fn src_mode_of(r: u16) -> AddressingMode {
    AddressingMode::from_code(two_bits_of(r, 14))
}

/// The frame version encoded in a raw field value.
pub open spec fn version_of(r: u16) -> FrameVersion {
    FrameVersion::from_code(two_bits_of(r, 12))
}

/// The raw value with the frame type sub-field replaced by the low three
/// bits of `code`.
pub open spec fn with_frame_type(r: u16, code: u8) -> u16 {
    (r & !0b111u16) | ((code as u16) & 0b111u16)
}

/// The raw value with the flag at bit position `k` set to `b`.
pub open spec fn with_flag(r: u16, k: u16, b: bool) -> u16 {
    if b {
        r | (1u16 << k)
    } else {
        r & !(1u16 << k)
    }
}

/// The raw value with the two-bit sub-field at bit position `k` replaced by
/// the low two bits of `code`.
pub open spec fn with_two_bits(r: u16, k: u16, code: u8) -> u16 {
    (r & !(0b11u16 << k)) | (((code as u16) & 0b11u16) << k)
}

/// Bit positions of the single-bit flags.
pub const SECURITY_ENABLED_BIT: u16 = 3;

pub const FRAME_PENDING_BIT: u16 = 4;

pub const ACK_REQUEST_BIT: u16 = 5;

pub const PAN_ID_COMPRESSION_BIT: u16 = 6;

pub const SEQ_NR_SUPPRESSION_BIT: u16 = 8;

pub const IE_PRESENT_BIT: u16 = 9;

/// Bit positions of the two-bit sub-fields.
pub const DST_MODE_BIT: u16 = 10;

pub const VERSION_BIT: u16 = 12;

pub const SRC_MODE_BIT: u16 = 14;

proof fn lemma_split_join(r: u16)
    by (bit_vector)
    ensures
        raw_of((r & 0xffu16) as u8, (r >> 8u16) as u8) == r,
{
}

/// All sub-fields of a Frame Control field, as the getters read them.
pub struct FrameControlFields {
    pub frame_type: FrameType,
    pub security_enabled: bool,
    pub frame_pending: bool,
    pub ack_request: bool,
    pub pan_id_compression: bool,
    pub sequence_number_suppression: bool,
    pub information_elements_present: bool,
    pub dst_addressing_mode: AddressingMode,
    pub src_addressing_mode: AddressingMode,
    pub frame_version: FrameVersion,
}

/// The sub-fields encoded in a raw field value.
pub open spec fn fields_of(r: u16) -> FrameControlFields {
    FrameControlFields {
        frame_type: frame_type_of(r),
        security_enabled: flag_of(r, SECURITY_ENABLED_BIT),
        frame_pending: flag_of(r, FRAME_PENDING_BIT),
        ack_request: flag_of(r, ACK_REQUEST_BIT),
        pan_id_compression: flag_of(r, PAN_ID_COMPRESSION_BIT),
        sequence_number_suppression: flag_of(r, SEQ_NR_SUPPRESSION_BIT),
        information_elements_present: flag_of(r, IE_PRESENT_BIT),
        dst_addressing_mode: dst_mode_of(r),
        src_addressing_mode: src_mode_of(r),
        frame_version: version_of(r),
    }
}

proof fn lemma_frame_type_update(r: u16, c: u8)
    by (bit_vector)
    ensures
        (with_frame_type(r, c) & 0b111u16) == ((c as u16) & 0b111u16),
        ((with_frame_type(r, c) >> 3u16) & 1u16) == ((r >> 3u16) & 1u16),
        ((with_frame_type(r, c) >> 4u16) & 1u16) == ((r >> 4u16) & 1u16),
        ((with_frame_type(r, c) >> 5u16) & 1u16) == ((r >> 5u16) & 1u16),
        ((with_frame_type(r, c) >> 6u16) & 1u16) == ((r >> 6u16) & 1u16),
        ((with_frame_type(r, c) >> 8u16) & 1u16) == ((r >> 8u16) & 1u16),
        ((with_frame_type(r, c) >> 9u16) & 1u16) == ((r >> 9u16) & 1u16),
        ((with_frame_type(r, c) >> 10u16) & 0b11u16) == ((r >> 10u16) & 0b11u16),
        ((with_frame_type(r, c) >> 12u16) & 0b11u16) == ((r >> 12u16) & 0b11u16),
        ((with_frame_type(r, c) >> 14u16) & 0b11u16) == ((r >> 14u16) & 0b11u16),
{
}

proof fn lemma_flag_same(r: u16, k: u16, b: bool)
    by (bit_vector)
    requires
        k < 16,
    ensures
        (((with_flag(r, k, b) >> k) & 1u16) == 1u16) == b,
{
}

proof fn lemma_flag_other(r: u16, k: u16, j: u16, b: bool)
    by (bit_vector)
    requires
        k < 16,
        j < 16,
        k != j,
    ensures
        ((with_flag(r, k, b) >> j) & 1u16) == ((r >> j) & 1u16),
{
}

proof fn lemma_flag_other_two(r: u16, k: u16, j: u16, b: bool)
    by (bit_vector)
    requires
        k < 16,
        j < 15,
        k != j,
        k != j + 1,
    ensures
        ((with_flag(r, k, b) >> j) & 0b11u16) == ((r >> j) & 0b11u16),
{
}

proof fn lemma_flag_low(r: u16, k: u16, b: bool)
    by (bit_vector)
    requires
        3 <= k < 16,
    ensures
        (with_flag(r, k, b) & 0b111u16) == (r & 0b111u16),
{
}

proof fn lemma_two_same(r: u16, k: u16, c: u8)
    by (bit_vector)
    requires
        k < 15,
    ensures
        ((with_two_bits(r, k, c) >> k) & 0b11u16) == ((c as u16) & 0b11u16),
{
}

proof fn lemma_two_other_flag(r: u16, k: u16, c: u8, j: u16)
    by (bit_vector)
    requires
        k < 15,
        j < 16,
        j != k,
        j != k + 1,
    ensures
        ((with_two_bits(r, k, c) >> j) & 1u16) == ((r >> j) & 1u16),
{
}

proof fn lemma_two_other_two(r: u16, k: u16, c: u8, j: u16)
    by (bit_vector)
    requires
        k < 15,
        j < 15,
        j + 1 < k || k + 1 < j,
    ensures
        ((with_two_bits(r, k, c) >> j) & 0b11u16) == ((r >> j) & 0b11u16),
{
}

proof fn lemma_two_low(r: u16, k: u16, c: u8)
    by (bit_vector)
    requires
        3 <= k < 15,
    ensures
        (with_two_bits(r, k, c) & 0b111u16) == (r & 0b111u16),
{
}

proof fn lemma_small_code(c: u8)
    by (bit_vector)
    ensures
        c < 8 ==> ((c as u16) & 0b111u16) as u8 == c,
        c < 4 ==> ((c as u16) & 0b11u16) as u8 == c,
{
}

/// Flags other than the one at position `k` keep their value when the flag
/// at `k` is written.
proof fn lemma_flag_frame(r: u16, k: u16, b: bool)
    requires
        k == 3 || k == 4 || k == 5 || k == 6 || k == 8 || k == 9,
    ensures
        flag_of(with_flag(r, k, b), k) == b,
        frame_type_of(with_flag(r, k, b)) == frame_type_of(r),
        k != 3 ==> flag_of(with_flag(r, k, b), 3) == flag_of(r, 3),
        k != 4 ==> flag_of(with_flag(r, k, b), 4) == flag_of(r, 4),
        k != 5 ==> flag_of(with_flag(r, k, b), 5) == flag_of(r, 5),
        k != 6 ==> flag_of(with_flag(r, k, b), 6) == flag_of(r, 6),
        k != 8 ==> flag_of(with_flag(r, k, b), 8) == flag_of(r, 8),
        k != 9 ==> flag_of(with_flag(r, k, b), 9) == flag_of(r, 9),
        two_bits_of(with_flag(r, k, b), 10) == two_bits_of(r, 10),
        two_bits_of(with_flag(r, k, b), 12) == two_bits_of(r, 12),
        two_bits_of(with_flag(r, k, b), 14) == two_bits_of(r, 14),
{
    lemma_flag_same(r, k, b);
    lemma_flag_low(r, k, b);
    if k != 3 { lemma_flag_other(r, k, 3, b); }
    if k != 4 { lemma_flag_other(r, k, 4, b); }
    if k != 5 { lemma_flag_other(r, k, 5, b); }
    if k != 6 { lemma_flag_other(r, k, 6, b); }
    if k != 8 { lemma_flag_other(r, k, 8, b); }
    if k != 9 { lemma_flag_other(r, k, 9, b); }
    lemma_flag_other_two(r, k, 10, b);
    lemma_flag_other_two(r, k, 12, b);
    lemma_flag_other_two(r, k, 14, b);
}

proof fn lemma_two_frame(r: u16, k: u16, c: u8)
    requires
        k == 10 || k == 12 || k == 14,
    ensures
        two_bits_of(with_two_bits(r, k, c), k) == ((c as u16) & 0b11u16) as u8,
        frame_type_of(with_two_bits(r, k, c)) == frame_type_of(r),
        flag_of(with_two_bits(r, k, c), 3) == flag_of(r, 3),
        flag_of(with_two_bits(r, k, c), 4) == flag_of(r, 4),
        flag_of(with_two_bits(r, k, c), 5) == flag_of(r, 5),
        flag_of(with_two_bits(r, k, c), 6) == flag_of(r, 6),
        flag_of(with_two_bits(r, k, c), 8) == flag_of(r, 8),
        flag_of(with_two_bits(r, k, c), 9) == flag_of(r, 9),
        k != 10 ==> two_bits_of(with_two_bits(r, k, c), 10) == two_bits_of(r, 10),
        k != 12 ==> two_bits_of(with_two_bits(r, k, c), 12) == two_bits_of(r, 12),
        k != 14 ==> two_bits_of(with_two_bits(r, k, c), 14) == two_bits_of(r, 14),
{
    lemma_two_same(r, k, c);
    lemma_two_low(r, k, c);
    lemma_two_other_flag(r, k, c, 3);
    lemma_two_other_flag(r, k, c, 4);
    lemma_two_other_flag(r, k, c, 5);
    lemma_two_other_flag(r, k, c, 6);
    lemma_two_other_flag(r, k, c, 8);
    lemma_two_other_flag(r, k, c, 9);
    if k != 10 { lemma_two_other_two(r, k, c, 10); }
    if k != 12 { lemma_two_other_two(r, k, c, 12); }
    if k != 14 { lemma_two_other_two(r, k, c, 14); }
}

/// Writing a defined frame type and reading the field back yields the frame
/// type written; every other sub-field keeps its value.
pub proof fn law_frame_type_write_read(r: u16, t: FrameType)
    requires
        t != FrameType::Unknown,
    ensures
        fields_of(with_frame_type(r, t.code())) == (FrameControlFields { frame_type: t, ..fields_of(r) }),
{
    lemma_frame_type_update(r, t.code());
    lemma_small_code(t.code());
}

/// Writing a flag (security enabled, frame pending, acknowledgement request,
/// PAN ID compression, sequence number suppression or IE present) and
/// reading the field back yields the value written; every other sub-field
/// keeps its value.
pub proof fn law_flag_write_read(r: u16, b: bool)
    ensures
        fields_of(with_flag(r, SECURITY_ENABLED_BIT, b)) == (FrameControlFields { security_enabled: b, ..fields_of(r) }),
        fields_of(with_flag(r, FRAME_PENDING_BIT, b)) == (FrameControlFields { frame_pending: b, ..fields_of(r) }),
        fields_of(with_flag(r, ACK_REQUEST_BIT, b)) == (FrameControlFields { ack_request: b, ..fields_of(r) }),
        fields_of(with_flag(r, PAN_ID_COMPRESSION_BIT, b)) == (FrameControlFields { pan_id_compression: b, ..fields_of(r) }),
        fields_of(with_flag(r, SEQ_NR_SUPPRESSION_BIT, b)) == (FrameControlFields { sequence_number_suppression: b, ..fields_of(r) }),
        fields_of(with_flag(r, IE_PRESENT_BIT, b)) == (FrameControlFields { information_elements_present: b, ..fields_of(r) }),
{
    lemma_flag_frame(r, 3, b);
    lemma_flag_frame(r, 4, b);
    lemma_flag_frame(r, 5, b);
    lemma_flag_frame(r, 6, b);
    lemma_flag_frame(r, 8, b);
    lemma_flag_frame(r, 9, b);
}

/// Writing a defined addressing mode into the destination or source
/// addressing mode sub-field and reading the field back yields the mode
/// written; every other sub-field keeps its value.
pub proof fn law_addressing_mode_write_read(r: u16, m: AddressingMode)
    requires
        m != AddressingMode::Unknown,
    ensures
        fields_of(with_two_bits(r, DST_MODE_BIT, m.code())) == (FrameControlFields { dst_addressing_mode: m, ..fields_of(r) }),
        fields_of(with_two_bits(r, SRC_MODE_BIT, m.code())) == (FrameControlFields { src_addressing_mode: m, ..fields_of(r) }),
{
    lemma_two_frame(r, 10, m.code());
    lemma_two_frame(r, 14, m.code());
    lemma_small_code(m.code());
}

/// Writing any frame version and reading the field back yields the version
/// written; every other sub-field keeps its value.
pub proof fn law_frame_version_write_read(r: u16, v: FrameVersion)
    ensures
        fields_of(with_two_bits(r, VERSION_BIT, v.code())) == (FrameControlFields { frame_version: v, ..fields_of(r) }),
{
    lemma_two_frame(r, 12, v.code());
    lemma_small_code(v.code());
}

/// A reader/writer for the IEEE 802.15.4 Frame Control field.
///
/// The first two octets of the held buffer are the field.
#[derive(Debug, PartialEq, Eq)]
pub struct FrameControl {
    bytes: Vec<u8>,
}

impl View for FrameControl {
    type V = Seq<u8>;

    closed spec fn view(&self) -> Seq<u8> {
        self.bytes@
    }
}

impl FrameControl {
    /// The buffer holds the whole field.
    pub open spec fn wf(&self) -> bool {
        self@.len() >= 2
    }

    /// The 16-bit value of the field.
    pub open spec fn raw(&self) -> u16 {
        raw_of(self@[0], self@[1])
    }

    /// Create a new [`FrameControl`] reader/writer from a given buffer.
    ///
    /// # Errors
    ///
    /// Returns an error if the buffer is too short.
    pub fn new(bytes: &[u8]) -> (res: Result<FrameControl, Error>)
        ensures
            res is Ok <==> bytes@.len() >= 2,
            res matches Ok(fc) ==> fc@ == bytes@ && fc.wf(),
    {
        let fc = Self::new_unchecked(bytes);
        if !fc.check_len() {
            return Err(Error);
        }
        Ok(fc)
    }

    /// Returns `false` if the buffer is too short to contain the Frame Control
    /// field.
    fn check_len(&self) -> (ok: bool)
        ensures
            ok == self.wf(),
    {
        self.bytes.len() >= 2
    }

    /// Create a new [`FrameControl`] reader/writer from a given buffer without
    /// length checking.
    pub fn new_unchecked(bytes: &[u8]) -> (fc: FrameControl)
        ensures
            fc@ == bytes@,
    {
        let mut v: Vec<u8> = Vec::new();
        v.extend_from_slice(bytes);
        FrameControl { bytes: v }
    }

    /// The buffer of the field.
    pub fn as_bytes(&self) -> (b: &[u8])
        ensures
            b@ == self@,
    {
        self.bytes.as_slice()
    }

    /// Writes the field into the caller's buffer at `at`; every other octet
    /// of the buffer keeps its value.
    pub fn write_into(&self, buffer: &mut [u8], at: usize)
        requires
            at + self@.len() <= old(buffer)@.len(),
        ensures
            final(buffer)@ == crate::parser::addressing::splice(old(buffer)@, at as int, self@),
    {
        crate::parser::addressing::write_octets(buffer, at, self.bytes.as_slice());
    }

    /// Return the inner buffer.
    pub fn into_inner(self) -> (bytes: Vec<u8>)
        ensures
            bytes@ == self@,
    {
        self.bytes
    }

    fn read_raw(&self) -> (r: u16)
        requires
            self.wf(),
        ensures
            r == self.raw(),
    {
        (self.bytes[0] as u16) | ((self.bytes[1] as u16) << 8u16)
    }

    fn write_raw(&mut self, r: u16)
        requires
            old(self).wf(),
        ensures
            final(self)@.len() == old(self)@.len(),
            final(self)@.subrange(2, final(self)@.len() as int) == old(self)@.subrange(
                2,
                old(self)@.len() as int,
            ),
            final(self).raw() == r,
    {
        self.bytes.set(0, (r & 0xffu16) as u8);
        self.bytes.set(1, (r >> 8u16) as u8);
        proof {
            lemma_split_join(r);
            assert(final(self)@.subrange(2, final(self)@.len() as int) =~= old(self)@.subrange(
                2,
                old(self)@.len() as int,
            ));
        }
    }

    /// Return the [`FrameType`] field.
    pub fn frame_type(&self) -> (t: FrameType)
        requires
            self.wf(),
        ensures
            t == frame_type_of(self.raw()),
    {
        FrameType::from((self.read_raw() & 0b111u16) as u8)
    }

    /// Returns `true` when the security enabled field is set.
    pub fn security_enabled(&self) -> (b: bool)
        requires
            self.wf(),
        ensures
            b == flag_of(self.raw(), SECURITY_ENABLED_BIT),
    {
        ((self.read_raw() >> 3u16) & 1u16) == 1u16
    }

    /// Returns `true` when the frame pending field is set.
    pub fn frame_pending(&self) -> (b: bool)
        requires
            self.wf(),
        ensures
            b == flag_of(self.raw(), FRAME_PENDING_BIT),
    {
        ((self.read_raw() >> 4u16) & 1u16) == 1u16
    }

    /// Returns `true` when the acknowledgement request field is set.
    pub fn ack_request(&self) -> (b: bool)
        requires
            self.wf(),
        ensures
            b == flag_of(self.raw(), ACK_REQUEST_BIT),
    {
        ((self.read_raw() >> 5u16) & 1u16) == 1u16
    }

    /// Returns `true` when the PAN ID compression field is set.
    pub fn pan_id_compression(&self) -> (b: bool)
        requires
            self.wf(),
        ensures
            b == flag_of(self.raw(), PAN_ID_COMPRESSION_BIT),
    {
        ((self.read_raw() >> 6u16) & 1u16) == 1u16
    }

    /// Returns `true` when the sequence number suppression field is set.
    pub fn sequence_number_suppression(&self) -> (b: bool)
        requires
            self.wf(),
        ensures
            b == flag_of(self.raw(), SEQ_NR_SUPPRESSION_BIT),
    {
        ((self.read_raw() >> 8u16) & 1u16) == 1u16
    }

    /// Returns `true` when the information element field is set.
    pub fn information_elements_present(&self) -> (b: bool)
        requires
            self.wf(),
        ensures
            b == flag_of(self.raw(), IE_PRESENT_BIT),
    {
        ((self.read_raw() >> 9u16) & 1u16) == 1u16
    }

    /// Return the Destination [`AddressingMode`].
    pub fn dst_addressing_mode(&self) -> (m: AddressingMode)
        requires
            self.wf(),
        ensures
            m == dst_mode_of(self.raw()),
    {
        AddressingMode::from(((self.read_raw() >> 10u16) & 0b11u16) as u8)
    }

    /// Return the Source [`AddressingMode`].
    pub fn src_addressing_mode(&self) -> (m: AddressingMode)
        requires
            self.wf(),
        ensures
            m == src_mode_of(self.raw()),
    {
        AddressingMode::from(((self.read_raw() >> 14u16) & 0b11u16) as u8)
    }

    /// Return the [`FrameVersion`].
    pub fn frame_version(&self) -> (v: FrameVersion)
        requires
            self.wf(),
        ensures
            v == version_of(self.raw()),
    {
        FrameVersion::from(((self.read_raw() >> 12u16) & 0b11u16) as u8)
    }

    /// Set the frame type field.
    pub fn set_frame_type(&mut self, frame_type: FrameType)
        requires
            old(self).wf(),
        ensures
            final(self)@.len() == old(self)@.len(),
            final(self)@.subrange(2, final(self)@.len() as int) == old(self)@.subrange(
                2,
                old(self)@.len() as int,
            ),
            final(self).raw() == with_frame_type(old(self).raw(), frame_type.code()),
    {
        let raw = self.read_raw();
        let code = frame_type.to_code();
        self.write_raw((raw & !0b111u16) | ((code as u16) & 0b111u16));
    }

    /// Set the security enabled field.
    pub fn set_security_enabled(&mut self, security_enabled: bool)
        requires
            old(self).wf(),
        ensures
            final(self)@.len() == old(self)@.len(),
            final(self)@.subrange(2, final(self)@.len() as int) == old(self)@.subrange(
                2,
                old(self)@.len() as int,
            ),
            final(self).raw() == with_flag(old(self).raw(), SECURITY_ENABLED_BIT, security_enabled),
    {
        let raw = self.read_raw();
        let new_raw = if security_enabled {
            raw | (1u16 << 3u16)
        } else {
            raw & !(1u16 << 3u16)
        };
        self.write_raw(new_raw);
    }

    /// Set the frame pending field.
    pub fn set_frame_pending(&mut self, frame_pending: bool)
        requires
            old(self).wf(),
        ensures
            final(self)@.len() == old(self)@.len(),
            final(self)@.subrange(2, final(self)@.len() as int) == old(self)@.subrange(
                2,
                old(self)@.len() as int,
            ),
            final(self).raw() == with_flag(old(self).raw(), FRAME_PENDING_BIT, frame_pending),
    {
        let raw = self.read_raw();
        let new_raw = if frame_pending {
            raw | (1u16 << 4u16)
        } else {
            raw & !(1u16 << 4u16)
        };
        self.write_raw(new_raw);
    }

    /// Set the acknowledgement request field.
    pub fn set_ack_request(&mut self, ack_request: bool)
        requires
            old(self).wf(),
        ensures
            final(self)@.len() == old(self)@.len(),
            final(self)@.subrange(2, final(self)@.len() as int) == old(self)@.subrange(
                2,
                old(self)@.len() as int,
            ),
            final(self).raw() == with_flag(old(self).raw(), ACK_REQUEST_BIT, ack_request),
    {
        let raw = self.read_raw();
        let new_raw = if ack_request {
            raw | (1u16 << 5u16)
        } else {
            raw & !(1u16 << 5u16)
        };
        self.write_raw(new_raw);
    }

    /// Set the PAN ID compression field.
    pub fn set_pan_id_compression(&mut self, pan_id_compression: bool)
        requires
            old(self).wf(),
        ensures
            final(self)@.len() == old(self)@.len(),
            final(self)@.subrange(2, final(self)@.len() as int) == old(self)@.subrange(
                2,
                old(self)@.len() as int,
            ),
            final(self).raw() == with_flag(old(self).raw(), PAN_ID_COMPRESSION_BIT, pan_id_compression),
    {
        let raw = self.read_raw();
        let new_raw = if pan_id_compression {
            raw | (1u16 << 6u16)
        } else {
            raw & !(1u16 << 6u16)
        };
        self.write_raw(new_raw);
    }

    /// Set the sequence number suppression field.
    pub fn set_sequence_number_suppression(&mut self, sequence_number_suppression: bool)
        requires
            old(self).wf(),
        ensures
            final(self)@.len() == old(self)@.len(),
            final(self)@.subrange(2, final(self)@.len() as int) == old(self)@.subrange(
                2,
                old(self)@.len() as int,
            ),
            final(self).raw() == with_flag(old(self).raw(), SEQ_NR_SUPPRESSION_BIT, sequence_number_suppression),
    {
        let raw = self.read_raw();
        let new_raw = if sequence_number_suppression {
            raw | (1u16 << 8u16)
        } else {
            raw & !(1u16 << 8u16)
        };
        self.write_raw(new_raw);
    }

    /// Set the information element present field.
    pub fn set_information_elements_present(&mut self, information_elements_present: bool)
        requires
            old(self).wf(),
        ensures
            final(self)@.len() == old(self)@.len(),
            final(self)@.subrange(2, final(self)@.len() as int) == old(self)@.subrange(
                2,
                old(self)@.len() as int,
            ),
            final(self).raw() == with_flag(old(self).raw(), IE_PRESENT_BIT, information_elements_present),
    {
        let raw = self.read_raw();
        let new_raw = if information_elements_present {
            raw | (1u16 << 9u16)
        } else {
            raw & !(1u16 << 9u16)
        };
        self.write_raw(new_raw);
    }

    /// Set the destination addressing mode field.
    pub fn set_dst_addressing_mode(&mut self, addressing_mode: AddressingMode)
        requires
            old(self).wf(),
        ensures
            final(self)@.len() == old(self)@.len(),
            final(self)@.subrange(2, final(self)@.len() as int) == old(self)@.subrange(
                2,
                old(self)@.len() as int,
            ),
            final(self).raw() == with_two_bits(old(self).raw(), DST_MODE_BIT, addressing_mode.code()),
    {
        let raw = self.read_raw();
        let code = addressing_mode.to_code();
        self.write_raw((raw & !(0b11u16 << 10u16)) | (((code as u16) & 0b11u16) << 10u16));
    }

    /// Set the source addressing mode field.
    pub fn set_src_addressing_mode(&mut self, addressing_mode: AddressingMode)
        requires
            old(self).wf(),
        ensures
            final(self)@.len() == old(self)@.len(),
            final(self)@.subrange(2, final(self)@.len() as int) == old(self)@.subrange(
                2,
                old(self)@.len() as int,
            ),
            final(self).raw() == with_two_bits(old(self).raw(), SRC_MODE_BIT, addressing_mode.code()),
    {
        let raw = self.read_raw();
        let code = addressing_mode.to_code();
        self.write_raw((raw & !(0b11u16 << 14u16)) | (((code as u16) & 0b11u16) << 14u16));
    }

    /// Set the frame version field.
    pub fn set_frame_version(&mut self, frame_version: FrameVersion)
        requires
            old(self).wf(),
        ensures
            final(self)@.len() == old(self)@.len(),
            final(self)@.subrange(2, final(self)@.len() as int) == old(self)@.subrange(
                2,
                old(self)@.len() as int,
            ),
            final(self).raw() == with_two_bits(old(self).raw(), VERSION_BIT, frame_version.code()),
    {
        let raw = self.read_raw();
        let code = frame_version.to_code();
        self.write_raw((raw & !(0b11u16 << 12u16)) | (((code as u16) & 0b11u16) << 12u16));
    }
}

} // verus!
