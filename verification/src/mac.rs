//! Decisions of the MAC sublayer: frame filtering, acknowledgements, data
//! confirmations and the PAN information base.

use vstd::prelude::*;

use crate::addressing::AddressingMode;
use crate::frame_control::{FrameType, FrameVersion};
use crate::mpdu::MpduFrame;
use crate::parser::addressing::le_u16;
use crate::parser::frame_control::{fields_of, with_flag, ACK_REQUEST_BIT};
use crate::repr::addressing::{fc_flags, lengths_of, AddressingRepr};
use crate::nrf::radio::{MAC_AIFS_US, MAC_SIFS_US};

verus! {

/// The broadcast PAN ID.
pub const BROADCAST_PAN_ID: u16 = 0xffff;

/// The broadcast short address.
pub const BROADCAST_SHORT_ADDRESS: u16 = 0xffff;

/// Time for an immediate acknowledgement (3 octets and a 6-octet PHY header)
/// to travel at 250 kbit/s, in µs.
pub const IMM_ACK_AIR_TIME_US: u32 = 288;

/// The sequence number field is suppressed in the frame.
pub open spec fn seq_len(m: MpduFrame) -> int {
    if fields_of(m.spec_fc_raw()).sequence_number_suppression {
        0
    } else {
        1
    }
}

/// The destination PAN ID and destination address octets of a frame, or
/// `None` when the frame type, frame version or addressing is invalid or the
/// buffer does not hold the fields.
pub open spec fn dst_fields(m: MpduFrame) -> Option<(Seq<u8>, Seq<u8>)> {
    let f = fields_of(m.spec_fc_raw());
    if f.frame_type == FrameType::Unknown || f.frame_version == FrameVersion::Unknown
        || f.dst_addressing_mode == AddressingMode::Unknown || f.src_addressing_mode
        == AddressingMode::Unknown {
        None
    } else {
        match fc_flags(f.frame_version, f.dst_addressing_mode, f.src_addressing_mode, f.pan_id_compression) {
            None => None,
            Some(flags) => {
                let l = lengths_of(flags);
                let start = m.spec_offset() + 2 + seq_len(m);
                if start + l[0] + l[1] > m.spec_buffer().len() {
                    None
                } else {
                    Some(
                        (
                            m.spec_buffer().subrange(start, start + l[0]),
                            m.spec_buffer().subrange(start + l[0], start + l[0] + l[1]),
                        ),
                    )
                }
            },
        }
    }
}

/// Whether a frame with the given destination PAN ID and address octets is
/// for a device with the given hardware address on the given PAN.
///
/// An absent destination address is the broadcast address where broadcast
/// is implicit, otherwise the frame is not for us. An absent PAN ID is the
/// broadcast PAN ID; the PAN ID must be ours or the broadcast PAN ID. A short
/// address matches when it is the broadcast address or equals the short
/// address formed by the last two octets of the hardware address (little
/// endian); an extended address matches when it equals the hardware
/// address.
pub open spec fn spec_for_us(
    hardware_address: Seq<u8>,
    pan: Seq<u8>,
    addr: Seq<u8>,
    mac_pan_id: u16,
    implicit_broadcast: bool,
) -> bool {
    let pan_id = if pan.len() == 2 {
        le_u16(pan[0], pan[1])
    } else {
        BROADCAST_PAN_ID
    };
    if addr.len() == 0 && !implicit_broadcast {
        false
    } else if pan_id != mac_pan_id && pan_id != BROADCAST_PAN_ID {
        false
    } else if addr.len() == 0 {
        true
    } else if addr.len() == 2 {
        addr == seq![0xffu8, 0xffu8] || le_u16(addr[0], addr[1]) == le_u16(
            hardware_address[6],
            hardware_address[7],
        )
    } else {
        addr == hardware_address
    }
}

/// Whether a destination PAN ID field (two octets, or none) is ours or the
/// broadcast PAN ID; an absent one counts as broadcast.
pub open spec fn pan_accepted(pan: Seq<u8>, mac_pan_id: u16) -> bool {
    pan.len() == 0 || (pan.len() == 2 && (le_u16(pan[0], pan[1]) == mac_pan_id || le_u16(
        pan[0],
        pan[1],
    ) == 0xffff))
}

/// Frame filtering: a frame whose destination PAN ID is ours or broadcast is
/// for us exactly when its extended destination address is our hardware
/// address, or its short destination address is the broadcast address or
/// our short address (the last two octets of the hardware address, little
/// endian), or it has no destination address and broadcast is implicit. A
/// frame for another PAN is never for us.
pub proof fn law_frame_filter(
    hardware_address: Seq<u8>,
    pan: Seq<u8>,
    addr: Seq<u8>,
    mac_pan_id: u16,
    implicit_broadcast: bool,
)
    requires
        hardware_address.len() == 8,
        pan.len() == 0 || pan.len() == 2,
        addr.len() == 0 || addr.len() == 2 || addr.len() == 8,
    ensures
        !pan_accepted(pan, mac_pan_id) ==> !spec_for_us(
            hardware_address,
            pan,
            addr,
            mac_pan_id,
            implicit_broadcast,
        ),
        pan_accepted(pan, mac_pan_id) && addr.len() == 8 ==> (spec_for_us(
            hardware_address,
            pan,
            addr,
            mac_pan_id,
            implicit_broadcast,
        ) <==> addr == hardware_address),
        pan_accepted(pan, mac_pan_id) && addr.len() == 2 ==> (spec_for_us(
            hardware_address,
            pan,
            addr,
            mac_pan_id,
            implicit_broadcast,
        ) <==> (addr == seq![0xffu8, 0xffu8] || (addr[0] == hardware_address[6] && addr[1]
            == hardware_address[7]))),
        pan_accepted(pan, mac_pan_id) && addr.len() == 0 ==> (spec_for_us(
            hardware_address,
            pan,
            addr,
            mac_pan_id,
            implicit_broadcast,
        ) <==> implicit_broadcast),
{
    if pan_accepted(pan, mac_pan_id) && addr.len() == 2 {
        crate::parser::addressing::law_u16_round_trip(0, addr[0], addr[1]);
        crate::parser::addressing::law_u16_round_trip(0, hardware_address[6], hardware_address[7]);
    }
}

/// Checks if the current frame is intended for us. For the hardware
/// address, the full 64-bit address is given; `mac_pan_id` is our PAN ID and
/// `implicit_broadcast` whether frames without destination address are
/// broadcast.
pub fn is_frame_for_us(
    hardware_address: &[u8; 8],
    mpdu: &MpduFrame,
    mac_pan_id: u16,
    implicit_broadcast: bool,
) -> (r: bool)
    requires
        mpdu.has_frame_control(),
    ensures
        r == match dst_fields(*mpdu) {
            None => false,
            Some((pan, addr)) => spec_for_us(
                hardware_address@,
                pan,
                addr,
                mac_pan_id,
                implicit_broadcast,
            ),
        },
        (match dst_fields(*mpdu) {
            Some((pan, addr)) => pan_accepted(pan, mac_pan_id) && addr.len() == 8 ==> (r <==> addr
                == hardware_address@),
            None => true,
        }),
{
    let fc = mpdu.frame_control();
    // Check if the frame type is valid, otherwise drop.
    if matches!(fc.frame_type(), FrameType::Unknown) {
        return false;
    }
    // Check if the frame version is valid, otherwise drop.
    if matches!(fc.frame_version(), FrameVersion::Unknown) {
        return false;
    }
    if matches!(fc.dst_addressing_mode(), AddressingMode::Unknown) || matches!(
        fc.src_addressing_mode(),
        AddressingMode::Unknown
    ) {
        return false;
    }
    let lengths: [u16; 4] = match AddressingRepr::from_frame_control(&fc) {
        Err(_) => {
            return false;
        },
        Ok(None) => [0, 0, 0, 0],
        Ok(Some(repr)) => match repr.addressing_fields_lengths() {
            Ok(l) => l,
            Err(_) => {
                return false;
            },
        },
    };
    let bytes = mpdu.as_bytes();
    let start: usize = mpdu.offset() as usize + if fc.sequence_number_suppression() {
        2
    } else {
        3
    };
    let pan_len = lengths[0] as usize;
    let addr_len = lengths[1] as usize;
    if start + pan_len + addr_len > bytes.len() {
        return false;
    }
    let pan = &bytes[start..start + pan_len];
    let addr = &bytes[start + pan_len..start + pan_len + addr_len];

    if addr_len == 0 && !implicit_broadcast {
        return false;
    }
    // Check if the destination PAN ID (if present) is ours or broadcast.
    let dst_pan_id = if pan_len == 2 {
        crate::parser::addressing::PanId::new([pan[0], pan[1]]).into_u16()
    } else {
        BROADCAST_PAN_ID
    };
    if dst_pan_id != mac_pan_id && dst_pan_id != BROADCAST_PAN_ID {
        return false;
    }
    if addr_len == 0 {
        true
    } else if addr_len == 2 {
        let broadcast = addr[0] == 0xff && addr[1] == 0xff;
        assert(broadcast <==> addr@ =~= seq![0xffu8, 0xffu8]);
        let ours = crate::parser::addressing::ShortAddress::new(
            [hardware_address[6], hardware_address[7]],
        ).into_u16();
        let theirs = crate::parser::addressing::ShortAddress::new([addr[0], addr[1]]).into_u16();
        broadcast || ours == theirs
    } else {
        let mut i: usize = 0;
        let mut equal = true;
        while i < 8
            invariant
                addr@.len() == 8,
                i <= 8,
                equal == (forall|j: int| 0 <= j < i ==> addr@[j] == hardware_address@[j]),
            decreases 8 - i,
        {
            equal = equal && addr[i] == hardware_address[i];
            i = i + 1;
        }
        assert(equal ==> addr@ =~= hardware_address@);
        equal
    }
}

/// The acknowledgement decision for a received frame: the sequence number
/// to acknowledge when the frame requests an acknowledgement and carries a
/// sequence number.
pub fn ack_sequence_number(rx_mpdu: &MpduFrame) -> (seq: Option<u8>)
    requires
        rx_mpdu.has_frame_control(),
        !rx_mpdu.spec_seq_nr_suppressed() ==> rx_mpdu.spec_offset() + 2 < rx_mpdu.spec_buffer().len(),
    ensures
        seq == (if fields_of(rx_mpdu.spec_fc_raw()).ack_request {
            rx_mpdu.spec_sequence_number()
        } else {
            None
        }),
{
    if !rx_mpdu.frame_control().ack_request() {
        return None;
    }
    rx_mpdu.sequence_number()
}

/// Whether a frame received while waiting for an acknowledgement is the
/// acknowledgement of the frame with the given sequence number: an Ack frame
/// with that sequence number.
pub fn is_expected_ack(rx_mpdu: &MpduFrame, sequence_number: u8) -> (r: bool)
    requires
        rx_mpdu.has_frame_control(),
        !rx_mpdu.spec_seq_nr_suppressed() ==> rx_mpdu.spec_offset() + 2 < rx_mpdu.spec_buffer().len(),
    ensures
        r == (fields_of(rx_mpdu.spec_fc_raw()).frame_type == FrameType::Ack
            && rx_mpdu.spec_sequence_number() == Some(sequence_number)),
{
    if !matches!(rx_mpdu.frame_control().frame_type(), FrameType::Ack) {
        return false;
    }
    match rx_mpdu.sequence_number() {
        Some(seq_num) => seq_num == sequence_number,
        None => false,
    }
}

/// The delay after which an acknowledgement is given up: AIFS, the air time
/// of the acknowledgement and SIFS as guard, in µs.
pub fn ack_wait_us() -> (us: u32)
    ensures
        us == MAC_AIFS_US + MAC_SIFS_US + IMM_ACK_AIR_TIME_US,
{
    MAC_AIFS_US as u32 + MAC_SIFS_US as u32 + IMM_ACK_AIR_TIME_US
}

/// Requests an acknowledgement for a frame with a unicast destination
/// address: sets the acknowledgement request field and returns the
/// sequence number to await. Frames without a unicast destination are left
/// unchanged.
pub fn set_ack(mpdu: &mut MpduFrame) -> (seq: Option<u8>)
    requires
        old(mpdu).has_frame_control(),
        old(mpdu).spec_offset() + 2 < old(mpdu).spec_buffer().len(),
    ensures
        ({
            let unicast = match dst_fields(*old(mpdu)) {
                Some((_, addr)) => addr.len() != 0 && addr != seq![0xffu8, 0xffu8],
                None => false,
            };
            if unicast {
                &&& final(mpdu).spec_fc_raw() == with_flag(
                    old(mpdu).spec_fc_raw(),
                    ACK_REQUEST_BIT,
                    true,
                )
                &&& final(mpdu).spec_offset() == old(mpdu).spec_offset()
                &&& final(mpdu).spec_buffer().len() == old(mpdu).spec_buffer().len()
                &&& seq == old(mpdu).spec_sequence_number()
            } else {
                &&& *final(mpdu) == *old(mpdu)
                &&& seq is None
            }
        }),
{
    let dst = dst_address_octets(mpdu);
    let unicast = match &dst {
        Some(addr) => {
            let len = addr.len();
            len != 0 && !(len == 2 && addr[0] == 0xff && addr[1] == 0xff)
        },
        None => false,
    };
    proof {
        if let Some(a) = dst {
            assert(a@.len() == 2 ==> (a@ =~= seq![0xffu8, 0xffu8] <==> (a@[0] == 0xff && a@[1]
                == 0xff)));
        }
    }
    if !unicast {
        return None;
    }
    let seq = mpdu.sequence_number();
    let mut fc = mpdu.frame_control();
    fc.set_ack_request(true);
    mpdu.write_frame_control(&fc);
    seq
}

/// The destination address octets of a frame (see [`dst_fields`]).
fn dst_address_octets(mpdu: &MpduFrame) -> (a: Option<Vec<u8>>)
    requires
        mpdu.has_frame_control(),
    ensures
        match dst_fields(*mpdu) {
            None => a is None,
            Some((_, addr)) => a matches Some(v) && v@ == addr,
        },
{
    let fc = mpdu.frame_control();
    if matches!(fc.frame_type(), FrameType::Unknown) || matches!(
        fc.frame_version(),
        FrameVersion::Unknown
    ) || matches!(fc.dst_addressing_mode(), AddressingMode::Unknown) || matches!(
        fc.src_addressing_mode(),
        AddressingMode::Unknown
    ) {
        return None;
    }
    let lengths: [u16; 4] = match AddressingRepr::from_frame_control(&fc) {
        Err(_) => {
            return None;
        },
        Ok(None) => [0, 0, 0, 0],
        Ok(Some(repr)) => match repr.addressing_fields_lengths() {
            Ok(l) => l,
            Err(_) => {
                return None;
            },
        },
    };
    let bytes = mpdu.as_bytes();
    let start: usize = mpdu.offset() as usize + if fc.sequence_number_suppression() {
        2
    } else {
        3
    };
    let pan_len = lengths[0] as usize;
    let addr_len = lengths[1] as usize;
    if start + pan_len + addr_len > bytes.len() {
        return None;
    }
    let mut out: Vec<u8> = Vec::new();
    out.extend_from_slice(&bytes[start + pan_len..start + pan_len + addr_len]);
    Some(out)
}

/// What the MAC does with a received frame after acknowledging it.
#[derive(Debug, PartialEq, Eq, Clone, Copy)]
pub enum IndicationKind {
    /// Indicate data to the upper layer.
    Data,
    /// Indicate a beacon to the upper layer.
    BeaconNotify,
    /// Drop the frame.
    Drop,
}

/// Data frames are indicated as data, beacon frames as beacons; other
/// frames are dropped.
pub fn indication_kind(frame_type: FrameType) -> (k: IndicationKind)
    ensures
        k == (match frame_type {
            FrameType::Data => IndicationKind::Data,
            FrameType::Beacon => IndicationKind::BeaconNotify,
            _ => IndicationKind::Drop,
        }),
{
    match frame_type {
        FrameType::Data => IndicationKind::Data,
        FrameType::Beacon => IndicationKind::BeaconNotify,
        _ => IndicationKind::Drop,
    }
}

/// Errors of a data request.
#[derive(Debug, PartialEq, Eq, Clone, Copy)]
pub enum DataError {
    TransactionOverflow,
    TransactionExpired,
    ChannelAccessFailure,
    InvalidAddress,
    NoAck,
    CounterError,
    FrameTooLong,
    InvalidParameter,
}

/// Confirmation of a data request.
#[derive(Debug, PartialEq, Eq, Clone, Copy)]
pub struct DataConfirm {
    /// Timestamp of frame transmission.
    pub timestamp: u32,
    /// Whether the frame has been acknowledged or not.
    pub acked: bool,
}

/// The confirmation of a sent data frame: acknowledged when no
/// acknowledgement was requested, otherwise when it was received.
pub fn data_confirm(awaited_ack: Option<u8>, ack_received: bool) -> (c: Result<DataConfirm, DataError>)
    ensures
        c == Ok::<DataConfirm, DataError>(
            DataConfirm { timestamp: 0, acked: awaited_ack is None || ack_received },
        ),
{
    let acked = match awaited_ack {
        Some(_) => ack_received,
        None => true,
    };
    Ok(DataConfirm { timestamp: 0, acked })
}

/// Confirmation of a purge request.
#[derive(Debug, PartialEq, Eq, Clone, Copy)]
pub struct PurgeConfirm {
    pub msdu_handle: u8,
}

/// Errors of a purge request.
#[derive(Debug, PartialEq, Eq, Clone, Copy)]
pub enum PurgeError {
    InvalidHandle,
}

/// Purging MSDUs from the transaction queue is not supported.
pub fn purge_request() -> (r: Result<PurgeConfirm, PurgeError>)
    ensures
        r == Err::<PurgeConfirm, PurgeError>(PurgeError::InvalidHandle),
{
    Err(PurgeError::InvalidHandle)
}

/// Confirmation of an association request.
#[derive(Debug, PartialEq, Eq, Clone, Copy)]
pub struct AssociateConfirm;

/// Association with a coordinator is not supported.
pub fn mlme_associate_request() -> (r: Result<AssociateConfirm, ()>)
    ensures
        r == Err::<AssociateConfirm, ()>(()),
{
    Err(())
}

/// A beacon request.
#[derive(Debug, PartialEq, Eq, Clone, Copy)]
pub struct BeaconRequest {}

/// Confirmation of a beacon request.
#[derive(Debug, PartialEq, Eq, Clone, Copy)]
pub struct BeaconConfirm {}

/// Confirmation of a reset request.
#[derive(Debug, PartialEq, Eq, Clone, Copy)]
pub struct ResetConfirm {
    pub status: bool,
}

/// Errors of a set request.
#[derive(Debug, PartialEq, Eq, Clone, Copy)]
pub enum SetError {
    InvalidParameter,
}

/// Attributes that may be written by an upper layer (IEEE 802.15.4-2020,
/// section 8.4.3.1, table 8-94).
#[derive(Debug, PartialEq, Eq, Clone, Copy)]
pub enum SetRequestAttribute {
    MacExtendedAddress([u8; 8]),
    MacAssociationPermit(bool),
    MacPanId(u16),
    MacShortAddress(u16),
}

/// The PAN information base.
#[derive(Debug, PartialEq, Eq, Clone, Copy)]
pub struct Pib {
    pub pan_id: u16,
    pub short_address: u16,
    pub extended_address: Option<[u8; 8]>,
    pub association_permit: bool,
}

impl Pib {
    /// The default PAN information base: no PAN, the broadcast short
    /// address, no extended address and no association permitted.
    pub open spec fn spec_default() -> Pib {
        Pib {
            pan_id: BROADCAST_PAN_ID,
            short_address: BROADCAST_SHORT_ADDRESS,
            extended_address: None,
            association_permit: false,
        }
    }

    /// The default PAN information base.
    pub fn new() -> (p: Pib)
        ensures
            p == Pib::spec_default(),
    {
        Pib {
            pan_id: BROADCAST_PAN_ID,
            short_address: BROADCAST_SHORT_ADDRESS,
            extended_address: None,
            association_permit: false,
        }
    }

    /// Writes the given attribute; all attributes may be written.
    pub fn mlme_set_request(&mut self, attribute: &SetRequestAttribute) -> (r: Result<(), SetError>)
        ensures
            r is Ok,
            *final(self) == (match *attribute {
                SetRequestAttribute::MacPanId(pan_id) => Pib { pan_id, ..*old(self) },
                SetRequestAttribute::MacShortAddress(short_address) => Pib {
                    short_address,
                    ..*old(self)
                },
                SetRequestAttribute::MacExtendedAddress(a) => Pib {
                    extended_address: Some(a),
                    ..*old(self)
                },
                SetRequestAttribute::MacAssociationPermit(p) => Pib {
                    association_permit: p,
                    ..*old(self)
                },
            }),
    {
        match attribute {
            SetRequestAttribute::MacPanId(pan_id) => self.pan_id = *pan_id,
            SetRequestAttribute::MacShortAddress(short_address) => self.short_address =
            *short_address,
            SetRequestAttribute::MacExtendedAddress(extended_address) => self.extended_address =
            Some(*extended_address),
            SetRequestAttribute::MacAssociationPermit(association_permit) => self.association_permit =
            *association_permit,
        }
        Ok(())
    }

    /// Resets the PAN information base to its defaults when asked; the reset
    /// always succeeds.
    pub fn mlme_reset_request(&mut self, set_default_pib: bool) -> (r: Result<ResetConfirm, ()>)
        ensures
            r == Ok::<ResetConfirm, ()>(ResetConfirm { status: true }),
            set_default_pib ==> *final(self) == Pib::spec_default(),
            !set_default_pib ==> *final(self) == *old(self),
    {
        if set_default_pib {
            *self = Pib::new();
        }
        Ok(ResetConfirm { status: true })
    }
}

/// A value written to an attribute reads back from the PAN information
/// base; the other attributes keep their values.
pub proof fn law_set_then_read(pib: Pib, pan_id: u16, short_address: u16, permit: bool)
    ensures
        (Pib { pan_id, ..pib }).pan_id == pan_id,
        (Pib { short_address, ..pib }).short_address == short_address,
        (Pib { association_permit: permit, ..pib }).association_permit == permit,
        (Pib { pan_id, ..pib }).short_address == pib.short_address,
{
}

} // verus!
