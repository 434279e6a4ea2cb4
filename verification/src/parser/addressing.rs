//! Readers/writers for IEEE 802.15.4 addresses, PAN IDs and the Addressing
//! Fields.
//!
//! Addresses and PAN IDs are held in little-endian octet order, as they are
//! transmitted.

use vstd::prelude::*;

use crate::addressing::AddressingMode;
use crate::frame_control::FrameVersion;
use crate::repr::addressing::{
    compression_of, fc_flags, is_present, lengths_of, present_flags, total_of, AddressingRepr,
    PanIdCompressionRepr,
};
use crate::Error;

verus! {

/// The 16-bit value of two little-endian octets.
pub open spec fn le_u16(lo: u8, hi: u8) -> u16 {
    (lo as int + 256 * (hi as int)) as u16
}

/// The low octet of a 16-bit value.
pub open spec fn lo_u8(v: u16) -> u8 {
    (v % 256) as u8
}

/// The high octet of a 16-bit value.
pub open spec fn hi_u8(v: u16) -> u8 {
    (v / 256) as u8
}

proof fn lemma_u16_bytes(v: u16)
    ensures
        le_u16(lo_u8(v), hi_u8(v)) == v,
{
}

proof fn lemma_bytes_u16(lo: u8, hi: u8)
    ensures
        lo_u8(le_u16(lo, hi)) == lo,
        hi_u8(le_u16(lo, hi)) == hi,
{
}

proof fn lemma_join_bits(lo: u8, hi: u8)
    by (bit_vector)
    ensures
        ((lo as u16) | ((hi as u16) << 8u16)) == lo as u16 + 256 * (hi as u16),
{
}

proof fn lemma_split_bits(v: u16)
    by (bit_vector)
    ensures
        (v & 0xffu16) as u8 == v % 256,
        (v >> 8u16) as u8 == v / 256,
{
}

/// Reads two little-endian octets as a 16-bit value.
fn read_le_u16(lo: u8, hi: u8) -> (v: u16)
    ensures
        v == le_u16(lo, hi),
{
    proof {
        lemma_join_bits(lo, hi);
    }
    (lo as u16) | ((hi as u16) << 8u16)
}

/// Splits a 16-bit value into its little-endian octets.
fn write_le_u16(v: u16) -> (b: [u8; 2])
    ensures
        b@ == seq![lo_u8(v), hi_u8(v)],
{
    proof {
        lemma_split_bits(v);
    }
    let b = [(v & 0xffu16) as u8, (v >> 8u16) as u8];
    assert(b@ =~= seq![lo_u8(v), hi_u8(v)]);
    b
}

/// Overwrites `buffer` from `at` on with the octets of `src`.
pub(crate) fn write_octets(buffer: &mut [u8], at: usize, src: &[u8])
    requires
        at + src@.len() <= old(buffer)@.len(),
    ensures
        final(buffer)@ == splice(old(buffer)@, at as int, src@),
{
    let len = buffer.len();
    let mut j: usize = 0;
    while j < src.len()
        invariant
            len == buffer@.len(),
            at + src@.len() <= old(buffer)@.len(),
            j <= src@.len(),
            buffer@.len() == old(buffer)@.len(),
            forall|k: int|
                0 <= k < buffer@.len() ==> #[trigger] buffer@[k] == if at <= k < at + j {
                    src@[k - at]
                } else {
                    old(buffer)@[k]
                },
        decreases src@.len() - j,
    {
        assert(at + j < buffer@.len());
        let k = at + j;
        buffer[k] = src[j];
        j = j + 1;
    }
    assert(buffer@ =~= splice(old(buffer)@, at as int, src@));
}

/// Short address reader/writer.
///
/// The internal representation is little-endian.
#[derive(Debug, PartialEq, Eq, Clone, Copy)]
pub struct ShortAddress([u8; 2]);

impl View for ShortAddress {
    type V = Seq<u8>;

    closed spec fn view(&self) -> Seq<u8> {
        self.0@
    }
}

impl ShortAddress {
    /// The value of the address.
    pub open spec fn spec_u16(self) -> u16 {
        le_u16(self@[0], self@[1])
    }

    /// The two octets of an address.
    pub proof fn lemma_len(self)
        ensures
            self@.len() == 2,
    {
    }

    /// Create a short address from its little-endian octets.
    pub fn new(bytes: [u8; 2]) -> (a: Self)
        ensures
            a@ == bytes@,
    {
        ShortAddress(bytes)
    }

    /// Return the little-endian octets.
    pub fn as_bytes(&self) -> (b: &[u8])
        ensures
            b@ == self@,
            b@.len() == 2,
    {
        self.0.as_slice()
    }

    /// Return the address in big-endian octet order.
    pub fn into_be_bytes(&self) -> (be: [u8; 2])
        ensures
            be@ == self@.reverse(),
    {
        let be = [self.0[1], self.0[0]];
        assert(be@ =~= self@.reverse());
        be
    }

    /// Create a short address from big-endian octets.
    pub fn from_be_bytes(be_bytes: [u8; 2]) -> (a: ShortAddress)
        ensures
            a@ == be_bytes@.reverse(),
    {
        let a = ShortAddress([be_bytes[1], be_bytes[0]]);
        assert(a@ =~= be_bytes@.reverse());
        a
    }

    /// Return the address as a 16-bit value.
    pub fn into_u16(&self) -> (v: u16)
        ensures
            v == self.spec_u16(),
    {
        read_le_u16(self.0[0], self.0[1])
    }

    /// Create a short address from a 16-bit value.
    pub fn from_u16(short_addr: u16) -> (a: ShortAddress)
        ensures
            a@ == seq![lo_u8(short_addr), hi_u8(short_addr)],
            a.spec_u16() == short_addr,
    {
        proof {
            lemma_u16_bytes(short_addr);
        }
        ShortAddress(write_le_u16(short_addr))
    }

    /// Overwrite the address with little-endian octets.
    pub fn set_le_bytes(&mut self, le_bytes: &[u8])
        requires
            le_bytes@.len() == 2,
        ensures
            final(self)@ == le_bytes@,
    {
        self.0 = [le_bytes[0], le_bytes[1]];
        assert(final(self)@ =~= le_bytes@);
    }

    /// Overwrite the address with big-endian octets.
    pub fn set_be_bytes(&mut self, be_bytes: &[u8])
        requires
            be_bytes@.len() == 2,
        ensures
            final(self)@ == be_bytes@.reverse(),
    {
        self.0 = [be_bytes[1], be_bytes[0]];
        assert(final(self)@ =~= be_bytes@.reverse());
    }

    /// Overwrite the address with a 16-bit value.
    pub fn set_u16(&mut self, short_addr: u16)
        ensures
            final(self)@ == seq![lo_u8(short_addr), hi_u8(short_addr)],
            final(self).spec_u16() == short_addr,
    {
        proof {
            lemma_u16_bytes(short_addr);
        }
        self.0 = write_le_u16(short_addr);
    }

    /// Writes the address into the caller's buffer at `at`; every other
    /// octet of the buffer keeps its value.
    pub fn write_into(&self, buffer: &mut [u8], at: usize)
        requires
            at + 2 <= old(buffer)@.len(),
        ensures
            final(buffer)@ == splice(old(buffer)@, at as int, self@),
    {
        write_octets(buffer, at, self.0.as_slice());
    }

    /// Writes a 16-bit value as a short address into the caller's buffer at
    /// `at`: the two octets become its little-endian octets, and every other
    /// octet of the buffer keeps its value.
    pub fn set_u16_in(buffer: &mut [u8], at: usize, short_addr: u16)
        requires
            at + 2 <= old(buffer)@.len(),
        ensures
            final(buffer)@ == old(buffer)@.update(at as int, lo_u8(short_addr)).update(
                at + 1,
                hi_u8(short_addr),
            ),
            le_u16(final(buffer)@[at as int], final(buffer)@[at + 1]) == short_addr,
    {
        let a = Self::from_u16(short_addr);
        a.write_into(buffer, at);
        assert(buffer@ =~= old(buffer)@.update(at as int, lo_u8(short_addr)).update(
            at + 1,
            hi_u8(short_addr),
        ));
    }
}

/// Extended address reader/writer.
///
/// The internal representation is little-endian.
#[derive(Debug, PartialEq, Eq, Clone, Copy)]
pub struct ExtendedAddress([u8; 8]);

impl View for ExtendedAddress {
    type V = Seq<u8>;

    closed spec fn view(&self) -> Seq<u8> {
        self.0@
    }
}

/// The eight octets of `b` in reverse order.
fn reversed8(b: &[u8]) -> (r: [u8; 8])
    requires
        b@.len() == 8,
    ensures
        r@ == b@.reverse(),
{
    let r = [b[7], b[6], b[5], b[4], b[3], b[2], b[1], b[0]];
    assert(r@ =~= b@.reverse());
    r
}

impl ExtendedAddress {
    /// The eight octets of an address.
    pub proof fn lemma_len(self)
        ensures
            self@.len() == 8,
    {
    }

    /// Create an extended address from its little-endian octets.
    pub fn new(bytes: [u8; 8]) -> (a: Self)
        ensures
            a@ == bytes@,
    {
        ExtendedAddress(bytes)
    }

    /// Return the little-endian octets.
    pub fn as_bytes(&self) -> (b: &[u8])
        ensures
            b@ == self@,
            b@.len() == 8,
    {
        self.0.as_slice()
    }

    /// Return the address in big-endian octet order.
    pub fn into_be_bytes(&self) -> (be: [u8; 8])
        ensures
            be@ == self@.reverse(),
    {
        reversed8(self.0.as_slice())
    }

    /// Create an extended address from big-endian octets.
    pub fn from_be_bytes(be_bytes: [u8; 8]) -> (a: ExtendedAddress)
        ensures
            a@ == be_bytes@.reverse(),
    {
        ExtendedAddress(reversed8(be_bytes.as_slice()))
    }

    /// Overwrite the address with little-endian octets.
    pub fn set_le_bytes(&mut self, le_bytes: &[u8])
        requires
            le_bytes@.len() == 8,
        ensures
            final(self)@ == le_bytes@,
    {
        self.0 = [
            le_bytes[0],
            le_bytes[1],
            le_bytes[2],
            le_bytes[3],
            le_bytes[4],
            le_bytes[5],
            le_bytes[6],
            le_bytes[7],
        ];
        assert(final(self)@ =~= le_bytes@);
    }

    /// Overwrite the address with big-endian octets.
    pub fn set_be_bytes(&mut self, be_bytes: &[u8])
        requires
            be_bytes@.len() == 8,
        ensures
            final(self)@ == be_bytes@.reverse(),
    {
        self.0 = reversed8(be_bytes);
    }

    /// Writes the address into the caller's buffer at `at`; every other
    /// octet of the buffer keeps its value.
    pub fn write_into(&self, buffer: &mut [u8], at: usize)
        requires
            at + 8 <= old(buffer)@.len(),
        ensures
            final(buffer)@ == splice(old(buffer)@, at as int, self@),
    {
        write_octets(buffer, at, self.0.as_slice());
    }
}

/// PAN id reader/writer.
///
/// The internal representation is little-endian.
#[derive(Debug, PartialEq, Eq, Clone, Copy)]
pub struct PanId([u8; 2]);

impl View for PanId {
    type V = Seq<u8>;

    closed spec fn view(&self) -> Seq<u8> {
        self.0@
    }
}

impl PanId {
    /// The value of the PAN ID.
    pub open spec fn spec_u16(self) -> u16 {
        le_u16(self@[0], self@[1])
    }

    /// The two octets of a PAN ID.
    pub proof fn lemma_len(self)
        ensures
            self@.len() == 2,
    {
    }

    /// Create a PAN ID from its little-endian octets.
    pub fn new(bytes: [u8; 2]) -> (a: Self)
        ensures
            a@ == bytes@,
    {
        PanId(bytes)
    }

    /// Return the little-endian octets.
    pub fn as_bytes(&self) -> (b: &[u8])
        ensures
            b@ == self@,
            b@.len() == 2,
    {
        self.0.as_slice()
    }

    /// Return the PAN ID in big-endian octet order.
    pub fn into_be_bytes(&self) -> (be: [u8; 2])
        ensures
            be@ == self@.reverse(),
    {
        let be = [self.0[1], self.0[0]];
        assert(be@ =~= self@.reverse());
        be
    }

    /// Create a PAN ID from big-endian octets.
    pub fn from_be_bytes(be_bytes: [u8; 2]) -> (a: PanId)
        ensures
            a@ == be_bytes@.reverse(),
    {
        let a = PanId([be_bytes[1], be_bytes[0]]);
        assert(a@ =~= be_bytes@.reverse());
        a
    }

    /// Return the PAN ID as a 16-bit value.
    pub fn into_u16(&self) -> (v: u16)
        ensures
            v == self.spec_u16(),
    {
        read_le_u16(self.0[0], self.0[1])
    }

    /// Create a PAN ID from a 16-bit value.
    pub fn from_u16(pan_id: u16) -> (a: PanId)
        ensures
            a@ == seq![lo_u8(pan_id), hi_u8(pan_id)],
            a.spec_u16() == pan_id,
    {
        proof {
            lemma_u16_bytes(pan_id);
        }
        PanId(write_le_u16(pan_id))
    }

    /// Overwrite the PAN ID with little-endian octets.
    pub fn set_le_bytes(&mut self, le_bytes: &[u8])
        requires
            le_bytes@.len() == 2,
        ensures
            final(self)@ == le_bytes@,
    {
        self.0 = [le_bytes[0], le_bytes[1]];
        assert(final(self)@ =~= le_bytes@);
    }

    /// Overwrite the PAN ID with big-endian octets.
    pub fn set_be_bytes(&mut self, be_bytes: &[u8])
        requires
            be_bytes@.len() == 2,
        ensures
            final(self)@ == be_bytes@.reverse(),
    {
        self.0 = [be_bytes[1], be_bytes[0]];
        assert(final(self)@ =~= be_bytes@.reverse());
    }

    /// Overwrite the PAN ID with a 16-bit value.
    pub fn set_u16(&mut self, pan_id: u16)
        ensures
            final(self)@ == seq![lo_u8(pan_id), hi_u8(pan_id)],
            final(self).spec_u16() == pan_id,
    {
        proof {
            lemma_u16_bytes(pan_id);
        }
        self.0 = write_le_u16(pan_id);
    }

    /// Writes the PAN ID into the caller's buffer at `at`; every other
    /// octet of the buffer keeps its value.
    pub fn write_into(&self, buffer: &mut [u8], at: usize)
        requires
            at + 2 <= old(buffer)@.len(),
        ensures
            final(buffer)@ == splice(old(buffer)@, at as int, self@),
    {
        write_octets(buffer, at, self.0.as_slice());
    }

    /// Writes a 16-bit value as a PAN ID into the caller's buffer at
    /// `at`: the two octets become its little-endian octets, and every other
    /// octet of the buffer keeps its value.
    pub fn set_u16_in(buffer: &mut [u8], at: usize, pan_id: u16)
        requires
            at + 2 <= old(buffer)@.len(),
        ensures
            final(buffer)@ == old(buffer)@.update(at as int, lo_u8(pan_id)).update(
                at + 1,
                hi_u8(pan_id),
            ),
            le_u16(final(buffer)@[at as int], final(buffer)@[at + 1]) == pan_id,
    {
        let a = Self::from_u16(pan_id);
        a.write_into(buffer, at);
        assert(buffer@ =~= old(buffer)@.update(at as int, lo_u8(pan_id)).update(
            at + 1,
            hi_u8(pan_id),
        ));
    }
}

/// An IEEE 802.15.4 address.
#[derive(Debug, PartialEq, Eq, Clone, Copy)]
pub enum Address {
    /// The address is absent.
    Absent,
    /// A short address.
    Short(ShortAddress),
    /// An extended address.
    Extended(ExtendedAddress),
}

/// The octets of the broadcast address.
pub const BROADCAST_ADDR: [u8; 2] = [0xff, 0xff];

impl Address {
    /// The octets of the address, little-endian; empty when absent.
    pub open spec fn spec_bytes(self) -> Seq<u8> {
        match self {
            Address::Absent => Seq::empty(),
            Address::Short(a) => a@,
            Address::Extended(a) => a@,
        }
    }

    /// The addressing mode of the address.
    pub open spec fn spec_mode(self) -> AddressingMode {
        match self {
            Address::Absent => AddressingMode::Absent,
            Address::Short(_) => AddressingMode::Short,
            Address::Extended(_) => AddressingMode::Extended,
        }
    }

    /// Whether this is the broadcast address.
    pub open spec fn spec_is_broadcast(self) -> bool {
        self is Short && self.spec_bytes() == seq![0xffu8, 0xffu8]
    }

    /// The broadcast address.
    pub fn broadcast_address() -> (a: Address)
        ensures
            a is Short,
            a.spec_bytes() == seq![0xffu8, 0xffu8],
            a.spec_is_broadcast(),
    {
        let a = Address::Short(ShortAddress::new(BROADCAST_ADDR));
        assert(a.spec_bytes() =~= seq![0xffu8, 0xffu8]);
        a
    }

    /// Return the length of the address in octets.
    pub fn length(&self) -> (len: usize)
        ensures
            len == self.spec_bytes().len(),
            len == self.spec_mode().spec_length(),
    {
        match self {
            Address::Absent => 0,
            Address::Short(_) => 2,
            Address::Extended(_) => 8,
        }
    }

    /// Query whether the address is absent.
    pub fn is_absent(&self) -> (b: bool)
        ensures
            b == (*self is Absent),
    {
        matches!(self, Address::Absent)
    }

    /// Query whether the address is short.
    pub fn is_short(&self) -> (b: bool)
        ensures
            b == (*self is Short),
    {
        matches!(self, Address::Short(_))
    }

    /// Query whether the address is extended.
    pub fn is_extended(&self) -> (b: bool)
        ensures
            b == (*self is Extended),
    {
        matches!(self, Address::Extended(_))
    }

    /// Query whether this address is the broadcast address.
    pub fn is_broadcast(&self) -> (b: bool)
        ensures
            b == self.spec_is_broadcast(),
    {
        match self {
            Address::Short(a) => {
                let bytes = a.as_bytes();
                let b = bytes[0] == 0xff && bytes[1] == 0xff;
                assert(b ==> a@ =~= seq![0xffu8, 0xffu8]);
                b
            },
            _ => false,
        }
    }

    /// Query whether the address is an unicast address.
    pub fn is_unicast(&self) -> (b: bool)
        ensures
            b == !self.spec_is_broadcast(),
    {
        !self.is_broadcast()
    }

    /// Derives a short address from an extended address' first two bytes, a
    /// short address remains unchanged.
    ///
    /// Note: This is not an IEEE 802.15.4 standard feature.
    pub fn to_short(&self) -> (s: Option<Address>)
        ensures
            match *self {
                Address::Absent => s is None,
                Address::Short(_) => s == Some(*self),
                Address::Extended(_) => s matches Some(a) && a is Short && a.spec_bytes()
                    == self.spec_bytes().subrange(0, 2),
            },
    {
        match self {
            Address::Short(a) => Some(Address::Short(*a)),
            Address::Extended(a) => {
                let bytes = a.as_bytes();
                let s = Address::Short(ShortAddress::new([bytes[0], bytes[1]]));
                assert(s.spec_bytes() =~= self.spec_bytes().subrange(0, 2));
                Some(s)
            },
            Address::Absent => None,
        }
    }

    /// Return the address as a slice of bytes.
    pub fn as_bytes(&self) -> (b: &[u8])
        ensures
            b@ == self.spec_bytes(),
            b@.len() == self.spec_mode().spec_length(),
    {
        match self {
            Address::Absent => &[],
            Address::Short(a) => a.as_bytes(),
            Address::Extended(a) => a.as_bytes(),
        }
    }

    /// Create an [`Address`] from a slice of bytes.
    ///
    /// The slice must be 0, 2 or 8 bytes long.
    pub fn from_bytes(bytes: &[u8]) -> (a: Address)
        requires
            bytes@.len() == 0 || bytes@.len() == 2 || bytes@.len() == 8,
        ensures
            a.spec_bytes() == bytes@,
            bytes@.len() == 0 ==> a is Absent,
            bytes@.len() == 2 ==> a is Short,
            bytes@.len() == 8 ==> a is Extended,
    {
        if bytes.len() == 0 {
            assert(bytes@ =~= Seq::<u8>::empty());
            Address::Absent
        } else if bytes.len() == 2 {
            let a = ShortAddress::new([bytes[0], bytes[1]]);
            assert(a@ =~= bytes@);
            Address::Short(a)
        } else {
            let mut e = ExtendedAddress::new([0u8; 8]);
            e.set_le_bytes(bytes);
            Address::Extended(e)
        }
    }

    /// The addressing mode of the address.
    pub fn mode(&self) -> (m: AddressingMode)
        ensures
            m == self.spec_mode(),
    {
        match self {
            Address::Absent => AddressingMode::Absent,
            Address::Short(_) => AddressingMode::Short,
            Address::Extended(_) => AddressingMode::Extended,
        }
    }
}

impl From<Address> for AddressingMode {
    fn from(value: Address) -> (m: AddressingMode) {
        value.mode()
    }
}

impl vstd::std_specs::convert::FromSpecImpl<Address> for AddressingMode {
    open spec fn obeys_from_spec() -> bool {
        true
    }

    open spec fn from_spec(value: Address) -> AddressingMode {
        value.spec_mode()
    }
}

/// Presence flags `(dst PAN ID present, dst mode, src PAN ID present, src
/// mode)` of a frame with the given version, addressing modes and PAN ID
/// Compression field, or `None` where the combination is invalid. A 2003/2006
/// frame with a single address must not set PAN ID compression.
pub open spec fn table_flags(
    version: FrameVersion,
    dst: AddressingMode,
    src: AddressingMode,
    compression: bool,
) -> Option<(bool, AddressingMode, bool, AddressingMode)> {
    if version == FrameVersion::Unknown || dst == AddressingMode::Unknown || src
        == AddressingMode::Unknown {
        None
    } else if version == FrameVersion::Ieee802154 {
        present_flags(
            dst,
            src,
            false,
            if compression {
                PanIdCompressionRepr::Yes
            } else {
                PanIdCompressionRepr::No
            },
        )
    } else if compression && (dst == AddressingMode::Absent) != (src == AddressingMode::Absent) {
        None
    } else {
        present_flags(dst, src, compression, PanIdCompressionRepr::Legacy)
    }
}

/// Start offsets of the four addressing fields given their lengths.
pub open spec fn field_start(l: [u16; 4], i: int) -> int {
    if i <= 0 {
        0
    } else if i == 1 {
        l[0] as int
    } else if i == 2 {
        l[0] + l[1]
    } else {
        l[0] + l[1] + l[2]
    }
}

/// The octets of the `i`-th addressing field (destination PAN ID,
/// destination address, source PAN ID, source address).
pub open spec fn field_of(bytes: Seq<u8>, l: [u16; 4], i: int) -> Seq<u8> {
    bytes.subrange(field_start(l, i), field_start(l, i) + l[i])
}

/// A reader/writer for the IEEE 802.15.4 Addressing Fields.
#[derive(Debug)]
pub struct AddressingFields {
    dst_pan_id_range: core::ops::Range<usize>,
    dst_addr_range: core::ops::Range<usize>,
    src_pan_id_range: core::ops::Range<usize>,
    src_addr_range: core::ops::Range<usize>,
    bytes: Vec<u8>,
}

/// Valid lengths of a PAN ID field.
pub open spec fn pan_id_len_ok(n: int) -> bool {
    n == 0 || n == 2
}

/// Valid lengths of an address field.
pub open spec fn addr_len_ok(n: int) -> bool {
    n == 0 || n == 2 || n == 8
}

impl AddressingFields {
    /// The four ranges are consecutive from offset zero, cover the buffer and
    /// have the lengths of a PAN ID, an address, a PAN ID and an address.
    #[verifier::type_invariant]
    closed spec fn inv(self) -> bool {
        &&& self.dst_pan_id_range.start == 0
        &&& self.dst_addr_range.start == self.dst_pan_id_range.end
        &&& self.src_pan_id_range.start == self.dst_addr_range.end
        &&& self.src_addr_range.start == self.src_pan_id_range.end
        &&& self.src_addr_range.end == self.bytes@.len()
        &&& pan_id_len_ok(self.dst_pan_id_range.end - self.dst_pan_id_range.start)
        &&& addr_len_ok(self.dst_addr_range.end - self.dst_addr_range.start)
        &&& pan_id_len_ok(self.src_pan_id_range.end - self.src_pan_id_range.start)
        &&& addr_len_ok(self.src_addr_range.end - self.src_addr_range.start)
    }

    /// The octets of the Addressing Fields.
    pub closed spec fn spec_bytes(self) -> Seq<u8> {
        self.bytes@
    }

    /// The lengths of the four fields.
    pub closed spec fn spec_lengths(self) -> [u16; 4] {
        [
            (self.dst_pan_id_range.end - self.dst_pan_id_range.start) as u16,
            (self.dst_addr_range.end - self.dst_addr_range.start) as u16,
            (self.src_pan_id_range.end - self.src_pan_id_range.start) as u16,
            (self.src_addr_range.end - self.src_addr_range.start) as u16,
        ]
    }

    /// The octets of the `i`-th field.
    pub open spec fn field(self, i: int) -> Seq<u8> {
        field_of(self.spec_bytes(), self.spec_lengths(), i)
    }

    /// Returns `(dst_pan_id_present, dst_address_mode, src_pan_id_present,
    /// src_address_mode)` for a frame of the given version with the given
    /// addressing modes and PAN ID Compression field, or `None` where the
    /// combination is invalid.
    pub fn address_present_flags(
        version: FrameVersion,
        dst: AddressingMode,
        src: AddressingMode,
        compression: bool,
    ) -> (res: Option<(bool, AddressingMode, bool, AddressingMode)>)
        ensures
            res == table_flags(version, dst, src, compression),
    {
        if matches!(version, FrameVersion::Unknown) || matches!(dst, AddressingMode::Unknown)
            || matches!(src, AddressingMode::Unknown) {
            return None;
        }
        let repr = if matches!(version, FrameVersion::Ieee802154) {
            let c = if compression {
                PanIdCompressionRepr::Yes
            } else {
                PanIdCompressionRepr::No
            };
            AddressingRepr::new(dst, src, false, c)
        } else {
            let dst_absent = matches!(dst, AddressingMode::Absent);
            let src_absent = matches!(src, AddressingMode::Absent);
            if compression && dst_absent != src_absent {
                return None;
            }
            AddressingRepr::new_legacy_addressing(dst, src, compression)
        };
        match repr.address_present_flags() {
            Ok(flags) => Some(flags),
            Err(_) => None,
        }
    }

    /// Create a new [`AddressingFields`] reader/writer from a given buffer.
    ///
    /// # Errors
    ///
    /// Returns an error where the addressing representation is invalid or the
    /// buffer is too small to hold the addressing fields. A longer buffer is
    /// accepted; the fields are its leading octets.
    pub fn new(bytes: &[u8], repr: AddressingRepr) -> (res: Result<Self, Error>)
        ensures
            res is Ok <==> (repr.fields_length() matches Some(n) && n <= bytes@.len()),
            res matches Ok(f) ==> (f.spec_bytes() == bytes@.subrange(
                0,
                repr.fields_length()->0,
            ) && Some(f.spec_lengths()) == repr.lengths()),
    {
        let expected_len = repr.addressing_fields_length()?;
        if bytes.len() < expected_len as usize {
            return Err(Error);
        }
        Self::new_unchecked(&bytes[0..expected_len as usize], repr)
    }

    /// Create a new [`AddressingFields`] reader/writer from a given buffer
    /// without checking the length.
    ///
    /// The length of the buffer must match the representation exactly.
    pub fn new_unchecked(bytes: &[u8], repr: AddressingRepr) -> (res: Result<Self, Error>)
        requires
            repr.fields_length() matches Some(n) ==> bytes@.len() == n,
        ensures
            res is Ok <==> repr.lengths() is Some,
            res matches Ok(f) ==> (f.spec_bytes() == bytes@ && Some(f.spec_lengths())
                == repr.lengths()),
    {
        let ranges = repr.addressing_fields_ranges()?;
        let ghost l = repr.lengths()->0;
        proof {
            assert(repr.flags() is Some);
            let f = repr.flags()->0;
            f.1.lemma_length_ok();
            f.3.lemma_length_ok();
        }
        let mut v: Vec<u8> = Vec::new();
        v.extend_from_slice(bytes);
        let (r0, r1, r2, r3) = ranges;
        let fields = AddressingFields {
            dst_pan_id_range: r0,
            dst_addr_range: r1,
            src_pan_id_range: r2,
            src_addr_range: r3,
            bytes: v,
        };
        assert(fields.spec_lengths()@ =~= l@);
        Ok(fields)
    }

    /// Writes the addressing fields into the caller's buffer at `at`; every
    /// other octet of the buffer keeps its value.
    pub fn write_into(&self, buffer: &mut [u8], at: usize)
        requires
            at + self.spec_bytes().len() <= old(buffer)@.len(),
        ensures
            final(buffer)@ == splice(old(buffer)@, at as int, self.spec_bytes()),
    {
        write_octets(buffer, at, self.bytes.as_slice());
    }

    /// Return the length of the Addressing Fields in octets.
    pub fn length(&self) -> (len: usize)
        ensures
            len == self.spec_bytes().len(),
            len == total_of(self.spec_lengths()),
    {
        proof {
            use_type_invariant(self);
        }
        self.bytes.len()
    }

    fn addr_from_range(&self, range: &core::ops::Range<usize>) -> (a: Option<Address>)
        requires
            range.start <= range.end <= self.spec_bytes().len(),
            addr_len_ok(range.end - range.start),
        ensures
            range.end - range.start == 0 ==> a is None,
            range.end - range.start != 0 ==> (a matches Some(addr) && addr.spec_bytes()
                == self.spec_bytes().subrange(range.start as int, range.end as int) && !(addr is Absent)),
    {
        if range.end - range.start == 0 {
            None
        } else {
            let mut out: Vec<u8> = Vec::new();
            let mut i = range.start;
            while i < range.end
                invariant
                    range.start <= i <= range.end <= self.bytes@.len(),
                    out@ == self.bytes@.subrange(range.start as int, i as int),
                decreases range.end - i,
            {
                out.push(self.bytes[i]);
                i = i + 1;
                assert(out@ =~= self.bytes@.subrange(range.start as int, i as int));
            }
            Some(Address::from_bytes(out.as_slice()))
        }
    }

    fn pan_id_from_range(&self, range: &core::ops::Range<usize>) -> (p: Option<PanId>)
        requires
            range.start <= range.end <= self.spec_bytes().len(),
            pan_id_len_ok(range.end - range.start),
        ensures
            range.end - range.start == 0 ==> p is None,
            range.end - range.start != 0 ==> (p matches Some(id) && id@ == self.spec_bytes().subrange(
                range.start as int,
                range.end as int,
            )),
    {
        if range.end - range.start == 0 {
            None
        } else {
            let p = PanId::new([self.bytes[range.start], self.bytes[range.start + 1]]);
            assert(p@ =~= self.spec_bytes().subrange(range.start as int, range.end as int));
            Some(p)
        }
    }

    /// Return the IEEE 802.15.4 destination [`Address`] if not absent.
    pub fn dst_address(&self) -> (a: Option<Address>)
        ensures
            self.field(1).len() == 0 ==> a is None,
            self.field(1).len() != 0 ==> (a matches Some(addr) && addr.spec_bytes() == self.field(1)
                && !(addr is Absent)),
    {
        proof {
            use_type_invariant(self);
        }
        self.addr_from_range(&self.dst_addr_range)
    }

    /// Return the IEEE 802.15.4 source [`Address`] if not absent.
    pub fn src_address(&self) -> (a: Option<Address>)
        ensures
            self.field(3).len() == 0 ==> a is None,
            self.field(3).len() != 0 ==> (a matches Some(addr) && addr.spec_bytes() == self.field(3)
                && !(addr is Absent)),
    {
        proof {
            use_type_invariant(self);
        }
        self.addr_from_range(&self.src_addr_range)
    }

    /// Return the IEEE 802.15.4 destination PAN ID if not elided.
    pub fn dst_pan_id(&self) -> (p: Option<PanId>)
        ensures
            self.field(0).len() == 0 ==> p is None,
            self.field(0).len() != 0 ==> (p matches Some(id) && id@ == self.field(0)),
    {
        proof {
            use_type_invariant(self);
        }
        self.pan_id_from_range(&self.dst_pan_id_range)
    }

    /// Return the IEEE 802.15.4 source PAN ID if not elided.
    pub fn src_pan_id(&self) -> (p: Option<PanId>)
        ensures
            self.field(2).len() == 0 ==> p is None,
            self.field(2).len() != 0 ==> (p matches Some(id) && id@ == self.field(2)),
    {
        proof {
            use_type_invariant(self);
        }
        self.pan_id_from_range(&self.src_pan_id_range)
    }
}

/// `bytes` with the octets from `start` on replaced by `src`.
pub open spec fn splice(bytes: Seq<u8>, start: int, src: Seq<u8>) -> Seq<u8> {
    bytes.subrange(0, start) + src + bytes.subrange(start + src.len(), bytes.len() as int)
}

impl AddressingFields {
    fn write_range(&mut self, start: usize, src: &[u8])
        requires
            start + src@.len() <= old(self).spec_bytes().len(),
        ensures
            final(self).spec_bytes() == splice(old(self).spec_bytes(), start as int, src@),
            final(self).spec_lengths() == old(self).spec_lengths(),
    {
        proof {
            use_type_invariant(&*self);
        }
        let ghost target = splice(self.bytes@, start as int, src@);
        let mut out: Vec<u8> = Vec::new();
        let mut i: usize = 0;
        while i < self.bytes.len()
            invariant
                start + src@.len() <= self.bytes@.len(),
                target == splice(self.bytes@, start as int, src@),
                target.len() == self.bytes@.len(),
                i <= self.bytes@.len(),
                out@ == target.subrange(0, i as int),
            decreases self.bytes@.len() - i,
        {
            let b = if start <= i && i < start + src.len() {
                src[i - start]
            } else {
                self.bytes[i]
            };
            out.push(b);
            i = i + 1;
            assert(out@ =~= target.subrange(0, i as int));
        }
        assert(out@ =~= target);
        self.bytes = out;
    }

    /// Write `address` into the destination address field unless the field
    /// is absent; the address must have the length of the field.
    ///
    /// Returns the address now held in the field, or `None` when the field is
    /// absent.
    pub fn dst_address_mut(&mut self, address: &Address) -> (res: Option<Address>)
        requires
            old(self).field(1).len() != 0 ==> address.spec_bytes().len() == old(self).field(1).len(),
        ensures
            final(self).spec_lengths() == old(self).spec_lengths(),
            old(self).field(1).len() == 0 ==> res is None && final(self).spec_bytes() == old(
                self,
            ).spec_bytes(),
            old(self).field(1).len() != 0 ==> res == Some(*address) && final(self).spec_bytes()
                == splice(
                old(self).spec_bytes(),
                field_start(old(self).spec_lengths(), 1),
                address.spec_bytes(),
            ),
    {
        proof {
            use_type_invariant(&*self);
        }
        let (start, end) = (self.dst_addr_range.start, self.dst_addr_range.end);
        if end - start == 0 {
            return None;
        }
        self.write_range(start, address.as_bytes());
        Some(*address)
    }

    /// Write `address` into the source address field unless the field is
    /// absent; the address must have the length of the field.
    ///
    /// Returns the address now held in the field, or `None` when the field is
    /// absent.
    pub fn src_address_mut(&mut self, address: &Address) -> (res: Option<Address>)
        requires
            old(self).field(3).len() != 0 ==> address.spec_bytes().len() == old(self).field(3).len(),
        ensures
            final(self).spec_lengths() == old(self).spec_lengths(),
            old(self).field(3).len() == 0 ==> res is None && final(self).spec_bytes() == old(
                self,
            ).spec_bytes(),
            old(self).field(3).len() != 0 ==> res == Some(*address) && final(self).spec_bytes()
                == splice(
                old(self).spec_bytes(),
                field_start(old(self).spec_lengths(), 3),
                address.spec_bytes(),
            ),
    {
        proof {
            use_type_invariant(&*self);
        }
        let (start, end) = (self.src_addr_range.start, self.src_addr_range.end);
        if end - start == 0 {
            return None;
        }
        self.write_range(start, address.as_bytes());
        Some(*address)
    }

    /// Write `pan_id` into the destination PAN ID field unless it is elided.
    ///
    /// Returns the PAN ID now held in the field, or `None` when it is elided.
    pub fn dst_pan_id_mut(&mut self, pan_id: &PanId) -> (res: Option<PanId>)
        ensures
            final(self).spec_lengths() == old(self).spec_lengths(),
            old(self).field(0).len() == 0 ==> res is None && final(self).spec_bytes() == old(
                self,
            ).spec_bytes(),
            old(self).field(0).len() != 0 ==> res == Some(*pan_id) && final(self).spec_bytes()
                == splice(old(self).spec_bytes(), 0, pan_id@),
    {
        proof {
            use_type_invariant(&*self);
        }
        let (start, end) = (self.dst_pan_id_range.start, self.dst_pan_id_range.end);
        if end - start == 0 {
            return None;
        }
        self.write_range(start, pan_id.as_bytes());
        Some(*pan_id)
    }

    /// Write `pan_id` into the source PAN ID field unless it is elided.
    ///
    /// Returns the PAN ID now held in the field, or `None` when it is elided.
    pub fn src_pan_id_mut(&mut self, pan_id: &PanId) -> (res: Option<PanId>)
        ensures
            final(self).spec_lengths() == old(self).spec_lengths(),
            old(self).field(2).len() == 0 ==> res is None && final(self).spec_bytes() == old(
                self,
            ).spec_bytes(),
            old(self).field(2).len() != 0 ==> res == Some(*pan_id) && final(self).spec_bytes()
                == splice(old(self).spec_bytes(), field_start(old(self).spec_lengths(), 2), pan_id@),
    {
        proof {
            use_type_invariant(&*self);
        }
        let (start, end) = (self.src_pan_id_range.start, self.src_pan_id_range.end);
        if end - start == 0 {
            return None;
        }
        self.write_range(start, pan_id.as_bytes());
        Some(*pan_id)
    }
}

/// The addressing that a Frame Control field yields has the presence flags
/// of the addressing table: where the table rejects a combination, so does
/// the Frame Control field.
pub proof fn law_frame_control_flags_match_table(
    version: FrameVersion,
    dst: AddressingMode,
    src: AddressingMode,
    bit: bool,
)
    requires
        version != FrameVersion::Unknown,
        dst != AddressingMode::Unknown,
        src != AddressingMode::Unknown,
    ensures
        fc_flags(version, dst, src, bit) == table_flags(version, dst, src, bit),
{
}

/// Writing an address or PAN ID as a 16-bit value and reading it back gives
/// the value; reading the octets of a value written gives back the octets.
pub proof fn law_u16_round_trip(v: u16, lo: u8, hi: u8)
    ensures
        le_u16(lo_u8(v), hi_u8(v)) == v,
        lo_u8(le_u16(lo, hi)) == lo,
        hi_u8(le_u16(lo, hi)) == hi,
{
    lemma_u16_bytes(v);
    lemma_bytes_u16(lo, hi);
}

/// An address converted to big-endian octets and back is the same address:
/// both conversions reverse the octets, and reversing twice gives them back.
pub proof fn law_be_round_trip(s: Seq<u8>)
    ensures
        s.reverse().reverse() == s,
{
    assert(s.reverse().reverse() =~= s);
}

} // verus!
