//! Decisions of the nRF IEEE 802.15.4 radio driver.
//!
//! The driver programs the RADIO peripheral: register values, hardware
//! "shorts" that chain radio tasks to radio events, and tasks triggered by
//! software. This module computes what to program; writing the registers and
//! awaiting radio events is done by the code that owns the peripheral.
//!
//! Times are in nanoseconds of the syntonized radio clock.

use vstd::prelude::*;

use crate::addressing::AddressingMode;
use crate::driver::DriverConfig;
use crate::frame_control::FrameVersion;
use crate::parser::addressing::AddressingFields;
use crate::parser::frame_control::{fields_of, raw_of, FrameControl};
use crate::repr::addressing::{
    fc_flags, lengths_of, total_of, AddressingRepr,
};

verus! {

/// Disabled to Tx Idle duration.
pub const T_TXEN: u64 = 130_000;

/// Tx Idle to Disabled duration.
pub const T_TXDIS: u64 = 21_000;

/// Disabled to Rx Idle duration.
pub const T_RXEN: u64 = 130_000;

/// Rx Idle to Disabled duration.
pub const T_RXDIS: u64 = 500;

/// CCA duration: 8 symbols of 16 µs.
pub const T_CCA: u64 = 128_000;

/// Rx-to-Tx and Tx-to-Rx duration.
pub const T_TURNAROUND: u64 = 40_000;

/// SHR duration: preamble (8 symbols) and SFD (2 symbols) of 16 µs each.
pub const T_SHR: u64 = 160_000;

/// Length of the PHY header (the frame length octet).
pub const PHY_HDR_LEN: u16 = 1;

/// Length of the FCS that the radio adds and checks.
pub const FCS_LEN: u16 = 2;

/// Largest PHY packet.
pub const PHY_MAX_PACKET_SIZE_127: u16 = 127;

/// The IEEE 802.15.4 start of frame delimiter.
pub const DEFAULT_SFD: u8 = 0xA7;

/// RX bit counter value that matches once the frame control field (2 octets)
/// has been received.
pub const BCC_FC_BITS: u32 = 16;

/// SIFS in µs: 12 symbols of 16 µs.
pub const MAC_SIFS_US: u16 = 192;

/// LIFS in µs: 40 symbols of 16 µs.
pub const MAC_LIFS_US: u16 = 640;

/// AIFS in µs: the turnaround time of 12 symbols of 16 µs.
pub const MAC_AIFS_US: u16 = 192;

/// The nRF radio driver's buffer layout: one octet of headroom for the PHY
/// header and two octets of tailroom into which the hardware writes the FCS,
/// which the MAC therefore leaves out of the frame.
#[derive(Debug, PartialEq, Eq, Clone, Copy)]
pub struct NrfRadioDriver;

impl DriverConfig for NrfRadioDriver {
    open spec fn spec_headroom() -> u16 {
        PHY_HDR_LEN
    }

    open spec fn spec_tailroom() -> u16 {
        FCS_LEN
    }

    open spec fn spec_max_frame_length() -> u16 {
        (PHY_MAX_PACKET_SIZE_127 - FCS_LEN) as u16
    }

    open spec fn spec_fcs_length() -> u16 {
        0
    }

    fn headroom() -> (r: u16) {
        PHY_HDR_LEN
    }

    fn tailroom() -> (r: u16) {
        FCS_LEN
    }

    fn max_frame_length() -> (r: u16) {
        PHY_MAX_PACKET_SIZE_127 - FCS_LEN
    }

    fn fcs_length() -> (r: u16) {
        0
    }

    proof fn lemma_config() {
    }
}

/// When a radio task starts.
#[derive(Debug, PartialEq, Eq, Clone, Copy)]
pub enum Timestamp {
    /// As soon as possible.
    BestEffort,
    /// At the given instant (the RMARKER of the frame for Rx and Tx).
    Scheduled(u64),
}

/// A radio task that a timer can trigger in hardware.
#[derive(Debug, PartialEq, Eq, Clone, Copy)]
pub enum HardwareSignal {
    RadioRxEnable,
    RadioTxEnable,
    RadioDisable,
    RadioCCA,
}

/// A hardware signal at an instant.
#[derive(Debug, PartialEq, Eq, Clone, Copy)]
pub struct TimedSignal {
    pub instant: u64,
    pub signal: HardwareSignal,
}

/// Switch the radio off.
#[derive(Debug, PartialEq, Eq, Clone, Copy)]
pub struct TaskOff {
    pub at: Timestamp,
}

/// Receive a frame.
#[derive(Debug, PartialEq, Eq, Clone, Copy)]
pub struct TaskRx {
    pub start: Timestamp,
}

/// Transmit a frame, optionally after a clear channel assessment.
#[derive(Debug, PartialEq, Eq, Clone, Copy)]
pub struct TaskTx {
    pub at: Timestamp,
    pub cca: bool,
}

/// The instant at which to trigger `signal` so that a task scheduled at
/// `at` starts on time, `offset` before; `None` for a best-effort task.
pub open spec fn timed(at: Timestamp, offset: u64, signal: HardwareSignal) -> Option<TimedSignal> {
    match at {
        Timestamp::Scheduled(t) => Some(TimedSignal { instant: (t - offset) as u64, signal }),
        Timestamp::BestEffort => None,
    }
}

/// Whether a timestamp leaves room for an offset before it.
pub open spec fn leaves_room(at: Timestamp, offset: u64) -> bool {
    at matches Timestamp::Scheduled(t) ==> t >= offset
}

fn timed_signal(at: Timestamp, offset: u64, signal: HardwareSignal) -> (s: Option<TimedSignal>)
    requires
        leaves_room(at, offset),
    ensures
        s == timed(at, offset, signal),
{
    match at {
        Timestamp::Scheduled(t) => Some(TimedSignal { instant: t - offset, signal }),
        Timestamp::BestEffort => None,
    }
}

/// Offset of disabling the radio: none.
pub fn timed_off(off_task: &TaskOff) -> (s: Option<TimedSignal>)
    ensures
        s == timed(off_task.at, 0, HardwareSignal::RadioDisable),
{
    timed_signal(off_task.at, 0, HardwareSignal::RadioDisable)
}

/// Offset from disabled to the RMARKER of a received frame: Rx ramp-up and
/// SHR.
pub open spec fn offset_dis_to_rx() -> u64 {
    (T_RXEN + T_SHR) as u64
}

/// Offset from disabled to the RMARKER of a transmitted frame.
pub open spec fn offset_dis_to_tx(cca: bool) -> u64 {
    if cca {
        (T_RXEN + T_CCA + T_TURNAROUND + T_SHR) as u64
    } else {
        (T_TXEN + T_SHR) as u64
    }
}

/// Offset from Rx to the RMARKER of a transmitted frame.
pub open spec fn offset_rx_to_tx(cca: bool) -> u64 {
    if cca {
        (T_CCA + T_TURNAROUND + T_SHR) as u64
    } else {
        (T_RXDIS + T_TXEN + T_SHR) as u64
    }
}

/// Offset from Tx to the RMARKER of a received frame.
pub open spec fn offset_tx_to_rx() -> u64 {
    (T_TXDIS + T_RXEN + T_SHR) as u64
}

/// Offset from Tx to the RMARKER of a transmitted frame.
pub open spec fn offset_tx_to_tx(cca: bool) -> u64 {
    if cca {
        (T_TXDIS + T_RXEN + T_CCA + T_TURNAROUND + T_SHR) as u64
    } else {
        (T_TXDIS + T_TXEN + T_SHR) as u64
    }
}

/// Timed reception from the disabled state: enable the receiver the ramp-up
/// and SHR durations before the RMARKER.
pub fn timed_dis_to_rx(rx_task: &TaskRx) -> (s: Option<TimedSignal>)
    requires
        leaves_room(rx_task.start, offset_dis_to_rx()),
    ensures
        s == timed(rx_task.start, offset_dis_to_rx(), HardwareSignal::RadioRxEnable),
{
    timed_signal(rx_task.start, T_RXEN + T_SHR, HardwareSignal::RadioRxEnable)
}

/// Timed transmission from the disabled state: with CCA, enable the
/// receiver before CCA, turnaround and SHR; without, enable the transmitter
/// before its ramp-up and SHR.
pub fn timed_dis_to_tx(tx_task: &TaskTx) -> (s: Option<TimedSignal>)
    requires
        leaves_room(tx_task.at, offset_dis_to_tx(tx_task.cca)),
    ensures
        s == timed(
            tx_task.at,
            offset_dis_to_tx(tx_task.cca),
            if tx_task.cca {
                HardwareSignal::RadioRxEnable
            } else {
                HardwareSignal::RadioTxEnable
            },
        ),
{
    if tx_task.cca {
        timed_signal(
            tx_task.at,
            T_RXEN + T_CCA + T_TURNAROUND + T_SHR,
            HardwareSignal::RadioRxEnable,
        )
    } else {
        timed_signal(tx_task.at, T_TXEN + T_SHR, HardwareSignal::RadioTxEnable)
    }
}

/// Timed transmission from reception: with CCA, start CCA before CCA,
/// turnaround and SHR; without, disable the receiver before ramp-down,
/// transmitter ramp-up and SHR.
pub fn timed_rx_to_tx(tx_task: &TaskTx) -> (s: Option<TimedSignal>)
    requires
        leaves_room(tx_task.at, offset_rx_to_tx(tx_task.cca)),
    ensures
        s == timed(
            tx_task.at,
            offset_rx_to_tx(tx_task.cca),
            if tx_task.cca {
                HardwareSignal::RadioCCA
            } else {
                HardwareSignal::RadioDisable
            },
        ),
{
    if tx_task.cca {
        timed_signal(tx_task.at, T_CCA + T_TURNAROUND + T_SHR, HardwareSignal::RadioCCA)
    } else {
        timed_signal(tx_task.at, T_RXDIS + T_TXEN + T_SHR, HardwareSignal::RadioDisable)
    }
}

/// Timed reception from transmission: disable the transmitter before
/// ramp-down, receiver ramp-up and SHR.
pub fn timed_tx_to_rx(rx_task: &TaskRx) -> (s: Option<TimedSignal>)
    requires
        leaves_room(rx_task.start, offset_tx_to_rx()),
    ensures
        s == timed(rx_task.start, offset_tx_to_rx(), HardwareSignal::RadioDisable),
{
    timed_signal(rx_task.start, T_TXDIS + T_RXEN + T_SHR, HardwareSignal::RadioDisable)
}

/// Timed transmission after transmission: disable the transmitter before
/// ramp-down, ramp-up (with CCA: receiver ramp-up, CCA and turnaround) and
/// SHR.
pub fn timed_tx_to_tx(tx_task: &TaskTx) -> (s: Option<TimedSignal>)
    requires
        leaves_room(tx_task.at, offset_tx_to_tx(tx_task.cca)),
    ensures
        s == timed(tx_task.at, offset_tx_to_tx(tx_task.cca), HardwareSignal::RadioDisable),
{
    let offset = if tx_task.cca {
        T_TXDIS + T_RXEN + T_CCA + T_TURNAROUND + T_SHR
    } else {
        T_TXDIS + T_TXEN + T_SHR
    };
    timed_signal(tx_task.at, offset, HardwareSignal::RadioDisable)
}

/// Clear channel assessment method.
#[derive(Debug, PartialEq, Eq, Clone, Copy)]
pub enum CcaMode {
    /// Carrier sense.
    CarrierSense,
    /// Energy detection above the threshold.
    EnergyDetection { ed_threshold: u8 },
}

/// Interframe spacing before a transmission or reception.
#[derive(Debug, PartialEq, Eq, Clone, Copy)]
pub enum Ifs {
    Aifs,
    Sifs,
    Lifs,
    /// No interframe spacing.
    NoSpacing,
}

/// Transmission power settings of the nRF52840 radio.
#[derive(Debug, PartialEq, Eq, Clone, Copy)]
pub enum TxPower {
    Pos8dBm,
    Pos7dBm,
    Pos6dBm,
    Pos5dBm,
    Pos4dBm,
    Pos3dBm,
    Pos2dBm,
    ZerodBm,
    Neg4dBm,
    Neg8dBm,
    Neg12dBm,
    Neg16dBm,
    Neg20dBm,
    Neg40dBm,
}

/// The power setting for a power in dBm, where the radio supports it.
pub open spec fn tx_power_of(power: i8) -> Option<TxPower> {
    if power == 8 {
        Some(TxPower::Pos8dBm)
    } else if power == 7 {
        Some(TxPower::Pos7dBm)
    } else if power == 6 {
        Some(TxPower::Pos6dBm)
    } else if power == 5 {
        Some(TxPower::Pos5dBm)
    } else if power == 4 {
        Some(TxPower::Pos4dBm)
    } else if power == 3 {
        Some(TxPower::Pos3dBm)
    } else if power == 2 {
        Some(TxPower::Pos2dBm)
    } else if power == 0 {
        Some(TxPower::ZerodBm)
    } else if power == -4 {
        Some(TxPower::Neg4dBm)
    } else if power == -8 {
        Some(TxPower::Neg8dBm)
    } else if power == -12 {
        Some(TxPower::Neg12dBm)
    } else if power == -16 {
        Some(TxPower::Neg16dBm)
    } else if power == -20 {
        Some(TxPower::Neg20dBm)
    } else if power == -40 {
        Some(TxPower::Neg40dBm)
    } else {
        None
    }
}

/// The frequency register value of a 2.4 GHz channel: MHz above 2400.
pub open spec fn frequency_of(channel: u8) -> u8 {
    ((channel - 10) * 5) as u8
}

/// The interframe spacing in µs.
pub open spec fn ifs_us(ifs: Ifs) -> u16 {
    match ifs {
        Ifs::Aifs => MAC_AIFS_US,
        Ifs::Sifs => MAC_SIFS_US,
        Ifs::Lifs => MAC_LIFS_US,
        Ifs::NoSpacing => 0,
    }
}

/// The interframe spacings in µs: SIFS is 12 symbols of 16 µs, AIFS the
/// same turnaround, LIFS 40 symbols of 16 µs, and no spacing is zero; a
/// short spacing is shorter than a long one.
pub proof fn law_ifs_table()
    ensures
        ifs_us(Ifs::Sifs) == 12 * 16,
        ifs_us(Ifs::Aifs) == 12 * 16,
        ifs_us(Ifs::Lifs) == 40 * 16,
        ifs_us(Ifs::NoSpacing) == 0,
        ifs_us(Ifs::Sifs) < ifs_us(Ifs::Lifs),
        ifs_us(Ifs::Sifs) == MAC_SIFS_US,
        ifs_us(Ifs::Aifs) == MAC_AIFS_US,
        ifs_us(Ifs::Lifs) == MAC_LIFS_US,
{
}

/// The hardware shorts that chain radio tasks to radio events.
#[derive(Debug, PartialEq, Eq, Clone, Copy)]
pub struct Shorts {
    pub rxready_start: bool,
    pub framestart_bcstart: bool,
    pub rxready_ccastart: bool,
    pub ccaidle_txen: bool,
    pub txready_start: bool,
    pub ccabusy_disable: bool,
    pub end_start: bool,
    pub end_disable: bool,
    pub disabled_rxen: bool,
    pub disabled_txen: bool,
}

impl Shorts {
    /// No shorts.
    pub open spec fn spec_none() -> Shorts {
        Shorts {
            rxready_start: false,
            framestart_bcstart: false,
            rxready_ccastart: false,
            ccaidle_txen: false,
            txready_start: false,
            ccabusy_disable: false,
            end_start: false,
            end_disable: false,
            disabled_rxen: false,
            disabled_txen: false,
        }
    }

    /// No shorts.
    pub fn none() -> (s: Shorts)
        ensures
            s == Shorts::spec_none(),
    {
        Shorts {
            rxready_start: false,
            framestart_bcstart: false,
            rxready_ccastart: false,
            ccaidle_txen: false,
            txready_start: false,
            ccabusy_disable: false,
            end_start: false,
            end_disable: false,
            disabled_rxen: false,
            disabled_txen: false,
        }
    }
}

/// A radio task that software triggers.
#[derive(Debug, PartialEq, Eq, Clone, Copy)]
pub enum RadioTrigger {
    RxEnable,
    TxEnable,
    Start,
    Disable,
}

/// The state of the radio peripheral.
#[derive(Debug, PartialEq, Eq, Clone, Copy)]
pub enum RadioState {
    Disabled,
    RxRu,
    RxIdle,
    Rx,
    RxDisable,
    TxRu,
    TxIdle,
    Tx,
    TxDisable,
}

/// What a scheduled transition programs: an optional timed hardware signal,
/// the interframe spacing where it changes, the shorts, and a task that
/// software triggers right away.
#[derive(Debug, PartialEq, Eq, Clone, Copy)]
pub struct Transition {
    pub timed_signal: Option<TimedSignal>,
    pub ifs_us: Option<u16>,
    pub shorts: Shorts,
    pub trigger: Option<RadioTrigger>,
}

/// Register contents that the driver programs.
#[derive(Debug, PartialEq, Eq, Clone, Copy)]
pub struct RadioRegisters {
    pub sfd: u8,
    pub tx_power: TxPower,
    pub frequency: u8,
    pub cca: CcaMode,
    pub tifs_us: u16,
    pub bcc: u32,
}

/// The nRF IEEE 802.15.4 radio driver's configuration.
#[derive(Debug)]
pub struct RadioDriver {
    registers: RadioRegisters,
    device_id: (u32, u32),
}

impl RadioDriver {
    /// The register contents.
    pub closed spec fn spec_registers(self) -> RadioRegisters {
        self.registers
    }

    /// The device identifier.
    pub closed spec fn spec_device_id(self) -> (u32, u32) {
        self.device_id
    }

    /// The register contents.
    pub fn registers(&self) -> (r: RadioRegisters)
        ensures
            r == self.spec_registers(),
    {
        self.registers
    }

    /// A driver for the radio of a device with the given 64-bit device
    /// identifier (as two words): the default SFD, 0 dBm, channel 11, carrier
    /// sense, no interframe spacing, and the bit counter matching the frame
    /// control field.
    pub fn new(device_id_0: u32, device_id_1: u32) -> (d: Self)
        ensures
            d.spec_registers() == (RadioRegisters {
                sfd: DEFAULT_SFD,
                tx_power: TxPower::ZerodBm,
                frequency: frequency_of(11),
                cca: CcaMode::CarrierSense,
                tifs_us: 0,
                bcc: BCC_FC_BITS,
            }),
            d.spec_device_id() == (device_id_0, device_id_1),
    {
        let mut driver = RadioDriver {
            registers: RadioRegisters {
                sfd: 0,
                tx_power: TxPower::ZerodBm,
                frequency: 0,
                cca: CcaMode::CarrierSense,
                tifs_us: 0,
                bcc: BCC_FC_BITS,
            },
            device_id: (device_id_0, device_id_1),
        };
        driver.set_sfd(DEFAULT_SFD);
        driver.set_tx_power(0);
        driver.set_channel(11);
        driver.set_cca(CcaMode::CarrierSense);
        driver
    }

    /// Changes the Clear Channel Assessment method.
    pub fn set_cca(&mut self, cca: CcaMode)
        ensures
            final(self).spec_registers() == (RadioRegisters { cca, ..old(self).spec_registers() }),
            final(self).spec_device_id() == old(self).spec_device_id(),
    {
        self.registers.cca = cca;
    }

    /// Changes the Start of Frame Delimiter (SFD).
    pub fn set_sfd(&mut self, sfd: u8)
        ensures
            final(self).spec_registers() == (RadioRegisters { sfd, ..old(self).spec_registers() }),
            final(self).spec_device_id() == old(self).spec_device_id(),
    {
        self.registers.sfd = sfd;
    }

    /// Changes the radio transmission power, given in dBm; the radio
    /// supports 8 to 2, 0, -4, -8, -12, -16, -20 and -40 dBm.
    pub fn set_tx_power(&mut self, power: i8)
        requires
            tx_power_of(power) is Some,
        ensures
            final(self).spec_registers() == (RadioRegisters {
                tx_power: tx_power_of(power)->0,
                ..old(self).spec_registers()
            }),
            final(self).spec_device_id() == old(self).spec_device_id(),
    {
        let tx_power = match power {
            8 => TxPower::Pos8dBm,
            7 => TxPower::Pos7dBm,
            6 => TxPower::Pos6dBm,
            5 => TxPower::Pos5dBm,
            4 => TxPower::Pos4dBm,
            3 => TxPower::Pos3dBm,
            2 => TxPower::Pos2dBm,
            0 => TxPower::ZerodBm,
            -4 => TxPower::Neg4dBm,
            -8 => TxPower::Neg8dBm,
            -12 => TxPower::Neg12dBm,
            -16 => TxPower::Neg16dBm,
            -20 => TxPower::Neg20dBm,
            -40 => TxPower::Neg40dBm,
            _ => unreached(),
        };
        self.registers.tx_power = tx_power;
    }

    /// Changes the radio channel, one of the 2.4 GHz channels 11 to 26.
    pub fn set_channel(&mut self, channel: u8)
        requires
            11 <= channel <= 26,
        ensures
            final(self).spec_registers() == (RadioRegisters {
                frequency: frequency_of(channel),
                ..old(self).spec_registers()
            }),
            final(self).spec_device_id() == old(self).spec_device_id(),
    {
        self.registers.frequency = (channel - 10) * 5;
    }

    /// Changes the interframe spacing that the radio inserts.
    pub fn set_ifs(&mut self, ifs: Ifs)
        ensures
            final(self).spec_registers() == (RadioRegisters {
                tifs_us: ifs_us(ifs),
                ..old(self).spec_registers()
            }),
            final(self).spec_device_id() == old(self).spec_device_id(),
    {
        self.registers.tifs_us = ifs_duration_us(ifs);
    }

    /// Changes the RX bit counter compare value.
    pub fn set_bcc(&mut self, bcc: u32)
        ensures
            final(self).spec_registers() == (RadioRegisters { bcc, ..old(self).spec_registers() }),
            final(self).spec_device_id() == old(self).spec_device_id(),
    {
        self.registers.bcc = bcc;
    }
}

/// The interframe spacing in µs.
pub fn ifs_duration_us(ifs: Ifs) -> (us: u16)
    ensures
        us == ifs_us(ifs),
        ifs == Ifs::Sifs ==> us == 192,
        ifs == Ifs::Aifs ==> us == 192,
        ifs == Ifs::Lifs ==> us == 640,
        ifs == Ifs::NoSpacing ==> us == 0,
{
    match ifs {
        Ifs::Aifs => MAC_AIFS_US,
        Ifs::Sifs => MAC_SIFS_US,
        Ifs::Lifs => MAC_LIFS_US,
        Ifs::NoSpacing => 0,
    }
}

/// The octets of a 32-bit word, most significant first.
pub open spec fn be_octets(w: u32) -> Seq<u8> {
    seq![(w / 0x1000000) as u8, ((w / 0x10000) % 256) as u8, ((w / 0x100) % 256) as u8, (w % 256) as u8]
}

fn word_octets(w: u32) -> (b: [u8; 4])
    ensures
        b@ == be_octets(w),
{
    proof {
        assert((w & 0xff000000u32) >> 24u32 == w / 0x1000000) by (bit_vector);
        assert((w & 0x00ff0000u32) >> 16u32 == (w / 0x10000) % 256) by (bit_vector);
        assert((w & 0x0000ff00u32) >> 8u32 == (w / 0x100) % 256) by (bit_vector);
        assert(w & 0x000000ffu32 == w % 256) by (bit_vector);
    }
    let b = [
        ((w & 0xff000000u32) >> 24u32) as u8,
        ((w & 0x00ff0000u32) >> 16u32) as u8,
        ((w & 0x0000ff00u32) >> 8u32) as u8,
        (w & 0x000000ffu32) as u8,
    ];
    assert(b@ =~= be_octets(w));
    b
}

/// Basic features of all radio drivers, independent of driver state.
pub trait RadioDriverApi {
    /// The device's IEEE 802.15.4 extended address.
    fn ieee802154_address(&self) -> [u8; 8];
}

impl RadioDriverApi for RadioDriver {
    /// The device's IEEE 802.15.4 extended address: the 64-bit device
    /// identifier, most significant octet first.
    fn ieee802154_address(&self) -> (a: [u8; 8])
        ensures
            a@ == be_octets(self.spec_device_id().0) + be_octets(self.spec_device_id().1),
    {
        let hi = word_octets(self.device_id.0);
        let lo = word_octets(self.device_id.1);
        let a = [hi[0], hi[1], hi[2], hi[3], lo[0], lo[1], lo[2], lo[3]];
        assert(a@ =~= be_octets(self.device_id.0) + be_octets(self.device_id.1));
        a
    }
}

/// Shorts that start transmission once the channel is found idle and drop
/// to the disabled state when it is busy.
pub open spec fn cca_tx_shorts(base: Shorts) -> Shorts {
    Shorts { ccaidle_txen: true, txready_start: true, ccabusy_disable: true, ..base }
}

/// Reception from the disabled state: ramp up the receiver and start
/// reception immediately; enable the bit counter at frame start. Without a
/// timed signal, software enables the receiver.
pub fn schedule_rx_from_off(rx_task: &TaskRx) -> (t: Transition)
    requires
        leaves_room(rx_task.start, offset_dis_to_rx()),
    ensures
        t.timed_signal == timed(rx_task.start, offset_dis_to_rx(), HardwareSignal::RadioRxEnable),
        t.ifs_us is None,
        t.shorts == (Shorts { rxready_start: true, framestart_bcstart: true, ..Shorts::spec_none() }),
        t.trigger == (if t.timed_signal is None {
            Some(RadioTrigger::RxEnable)
        } else {
            None
        }),
{
    let timed_signal = timed_dis_to_rx(rx_task);
    let mut shorts = Shorts::none();
    shorts.rxready_start = true;
    shorts.framestart_bcstart = true;
    let trigger = if timed_signal.is_none() {
        Some(RadioTrigger::RxEnable)
    } else {
        None
    };
    Transition { timed_signal, ifs_us: None, shorts, trigger }
}

/// Transmission from the disabled state. With CCA, the receiver ramps up,
/// assesses the channel and, when idle, ramps up the transmitter and starts;
/// when busy, the radio is disabled. Without CCA the transmitter ramps up and
/// starts. Without a timed signal, software enables the receiver (with CCA)
/// or the transmitter.
pub fn schedule_tx_from_off(tx_task: &TaskTx) -> (t: Transition)
    requires
        leaves_room(tx_task.at, offset_dis_to_tx(tx_task.cca)),
    ensures
        t.timed_signal == timed(
            tx_task.at,
            offset_dis_to_tx(tx_task.cca),
            if tx_task.cca {
                HardwareSignal::RadioRxEnable
            } else {
                HardwareSignal::RadioTxEnable
            },
        ),
        t.ifs_us is None,
        t.shorts == (if tx_task.cca {
            cca_tx_shorts(Shorts { rxready_ccastart: true, ..Shorts::spec_none() })
        } else {
            Shorts { txready_start: true, ..Shorts::spec_none() }
        }),
        t.trigger == (if t.timed_signal is Some {
            None
        } else if tx_task.cca {
            Some(RadioTrigger::RxEnable)
        } else {
            Some(RadioTrigger::TxEnable)
        }),
{
    let timed_signal = timed_dis_to_tx(tx_task);
    let mut shorts = Shorts::none();
    let trigger;
    if tx_task.cca {
        shorts.rxready_ccastart = true;
        shorts.ccaidle_txen = true;
        shorts.txready_start = true;
        shorts.ccabusy_disable = true;
        trigger = if timed_signal.is_none() {
            Some(RadioTrigger::RxEnable)
        } else {
            None
        };
    } else {
        shorts.txready_start = true;
        trigger = if timed_signal.is_none() {
            Some(RadioTrigger::TxEnable)
        } else {
            None
        };
    }
    Transition { timed_signal, ifs_us: None, shorts, trigger }
}

/// Back-to-back reception: restart reception at the end of the current
/// frame. Only best-effort reception can follow reception back-to-back.
pub fn schedule_rx_from_rx(rx_task: &TaskRx) -> (t: Transition)
    requires
        rx_task.start == Timestamp::BestEffort,
    ensures
        t.timed_signal is None,
        t.ifs_us is None,
        t.shorts == (Shorts { end_start: true, framestart_bcstart: true, ..Shorts::spec_none() }),
        t.trigger is None,
{
    let mut shorts = Shorts::none();
    shorts.end_start = true;
    shorts.framestart_bcstart = true;
    Transition { timed_signal: None, ifs_us: None, shorts, trigger: None }
}

/// After the back-to-back shorts are in place: when the radio is already
/// idle, the previous frame ended before the shorts took effect and software
/// starts reception; during reception the hardware restarts by itself.
pub fn complete_rx_from_rx(state: RadioState) -> (trigger: Option<RadioTrigger>)
    requires
        state == RadioState::RxIdle || state == RadioState::Rx,
    ensures
        trigger == (if state == RadioState::RxIdle {
            Some(RadioTrigger::Start)
        } else {
            None
        }),
{
    match state {
        RadioState::RxIdle => Some(RadioTrigger::Start),
        _ => None,
    }
}

/// Transmission after reception, with the given interframe spacing. Without
/// a timed signal, the radio ramps down at the end of the frame and ramps up
/// again (with CCA: into reception, then CCA); with CCA the shorts of
/// [`cca_tx_shorts`] follow; without CCA, the transmitter ramps up and
/// starts.
pub fn schedule_tx_from_rx(tx_task: &TaskTx, ifs: Ifs) -> (t: Transition)
    requires
        leaves_room(tx_task.at, offset_rx_to_tx(tx_task.cca)),
    ensures
        t.timed_signal == timed(
            tx_task.at,
            offset_rx_to_tx(tx_task.cca),
            if tx_task.cca {
                HardwareSignal::RadioCCA
            } else {
                HardwareSignal::RadioDisable
            },
        ),
        t.ifs_us == Some(ifs_us(ifs)),
        t.shorts == (if tx_task.cca {
            cca_tx_shorts(
                Shorts {
                    end_disable: t.timed_signal is None,
                    disabled_rxen: t.timed_signal is None,
                    rxready_ccastart: t.timed_signal is None,
                    ..Shorts::spec_none()
                },
            )
        } else {
            Shorts {
                end_disable: t.timed_signal is None,
                disabled_txen: true,
                txready_start: true,
                ..Shorts::spec_none()
            }
        }),
        t.trigger is None,
{
    let timed_signal = timed_rx_to_tx(tx_task);
    let untimed = timed_signal.is_none();
    let mut shorts = Shorts::none();
    if tx_task.cca {
        shorts.end_disable = untimed;
        shorts.disabled_rxen = untimed;
        shorts.rxready_ccastart = untimed;
        shorts.ccaidle_txen = true;
        shorts.txready_start = true;
        shorts.ccabusy_disable = true;
    } else {
        shorts.end_disable = untimed;
        shorts.disabled_txen = true;
        shorts.txready_start = true;
    }
    Transition { timed_signal, ifs_us: Some(ifs_duration_us(ifs)), shorts, trigger: None }
}

/// After the shorts are in place: an idle receiver means that the frame
/// ended before the shorts took effect, and software disables it.
pub fn complete_tx_from_rx(state: RadioState) -> (trigger: Option<RadioTrigger>)
    ensures
        trigger == (if state == RadioState::RxIdle {
            Some(RadioTrigger::Disable)
        } else {
            None
        }),
{
    match state {
        RadioState::RxIdle => Some(RadioTrigger::Disable),
        _ => None,
    }
}

/// Switching off after reception: ramp down at the end of the frame.
pub fn schedule_off_from_rx(off_task: &TaskOff) -> (t: Transition)
    ensures
        t.timed_signal == timed(off_task.at, 0, HardwareSignal::RadioDisable),
        t.ifs_us is None,
        t.shorts == (Shorts { end_disable: true, ..Shorts::spec_none() }),
        t.trigger is None,
{
    let timed_signal = timed_off(off_task);
    let mut shorts = Shorts::none();
    shorts.end_disable = true;
    Transition { timed_signal, ifs_us: None, shorts, trigger: None }
}

/// After the short is in place: an idle receiver is disabled by software; a
/// radio that is disabling or disabled needs nothing.
pub fn complete_off_from_rx(state: RadioState) -> (trigger: Option<RadioTrigger>)
    requires
        state == RadioState::RxIdle || state == RadioState::RxDisable || state
            == RadioState::Disabled,
    ensures
        trigger == (if state == RadioState::RxIdle {
            Some(RadioTrigger::Disable)
        } else {
            None
        }),
{
    match state {
        RadioState::RxIdle => Some(RadioTrigger::Disable),
        _ => None,
    }
}

/// Reception after transmission, with the given interframe spacing: without
/// a timed signal the radio ramps down at the end of the frame; it ramps up
/// the receiver and starts reception.
pub fn schedule_rx_from_tx(rx_task: &TaskRx, ifs: Ifs) -> (t: Transition)
    requires
        leaves_room(rx_task.start, offset_tx_to_rx()),
    ensures
        t.timed_signal == timed(rx_task.start, offset_tx_to_rx(), HardwareSignal::RadioDisable),
        t.ifs_us == Some(ifs_us(ifs)),
        t.shorts == (Shorts {
            end_disable: t.timed_signal is None,
            disabled_rxen: true,
            rxready_start: true,
            ..Shorts::spec_none()
        }),
        t.trigger is None,
{
    let timed_signal = timed_tx_to_rx(rx_task);
    let mut shorts = Shorts::none();
    shorts.end_disable = timed_signal.is_none();
    shorts.disabled_rxen = true;
    shorts.rxready_start = true;
    Transition { timed_signal, ifs_us: Some(ifs_duration_us(ifs)), shorts, trigger: None }
}

/// After the transmitted frame started: enable the bit counter at frame
/// start (later, the transmitted frame would match it), and disable an
/// idle transmitter, whose frame ended before the shorts took effect.
pub fn complete_rx_from_tx(shorts: Shorts, state: RadioState) -> (r: (Shorts, Option<RadioTrigger>))
    ensures
        r.0 == (Shorts { framestart_bcstart: true, ..shorts }),
        r.1 == (if state == RadioState::TxIdle {
            Some(RadioTrigger::Disable)
        } else {
            None
        }),
{
    let mut shorts = shorts;
    shorts.framestart_bcstart = true;
    let trigger = match state {
        RadioState::TxIdle => Some(RadioTrigger::Disable),
        _ => None,
    };
    (shorts, trigger)
}

/// Transmission after transmission, with the given interframe spacing:
/// without a timed signal the radio ramps down at the end of the frame; with
/// CCA it ramps up into reception, assesses the channel and follows
/// [`cca_tx_shorts`]; without CCA the transmitter ramps up and starts.
pub fn schedule_tx_from_tx(tx_task: &TaskTx, ifs: Ifs) -> (t: Transition)
    requires
        leaves_room(tx_task.at, offset_tx_to_tx(tx_task.cca)),
    ensures
        t.timed_signal == timed(tx_task.at, offset_tx_to_tx(tx_task.cca), HardwareSignal::RadioDisable),
        t.ifs_us == Some(ifs_us(ifs)),
        t.shorts == (if tx_task.cca {
            cca_tx_shorts(
                Shorts {
                    end_disable: t.timed_signal is None,
                    disabled_rxen: true,
                    rxready_ccastart: true,
                    ..Shorts::spec_none()
                },
            )
        } else {
            Shorts {
                end_disable: t.timed_signal is None,
                disabled_txen: true,
                txready_start: true,
                ..Shorts::spec_none()
            }
        }),
        t.trigger is None,
{
    let timed_signal = timed_tx_to_tx(tx_task);
    let untimed = timed_signal.is_none();
    let mut shorts = Shorts::none();
    shorts.end_disable = untimed;
    if tx_task.cca {
        shorts.disabled_rxen = true;
        shorts.rxready_ccastart = true;
        shorts.ccaidle_txen = true;
        shorts.txready_start = true;
        shorts.ccabusy_disable = true;
    } else {
        shorts.disabled_txen = true;
        shorts.txready_start = true;
    }
    Transition { timed_signal, ifs_us: Some(ifs_duration_us(ifs)), shorts, trigger: None }
}

/// After the shorts are in place: an idle transmitter whose end event is
/// not yet set finished its frame before the shorts took effect, and
/// software disables it; when the end event is set, the next frame already
/// went out.
pub fn complete_tx_from_tx(state: RadioState, end_event: bool) -> (trigger: Option<RadioTrigger>)
    ensures
        trigger == (if state == RadioState::TxIdle && !end_event {
            Some(RadioTrigger::Disable)
        } else {
            None
        }),
{
    if matches!(state, RadioState::TxIdle) && !end_event {
        Some(RadioTrigger::Disable)
    } else {
        None
    }
}

/// Switching off after transmission: ramp down at the end of the frame.
pub fn schedule_off_from_tx(off_task: &TaskOff) -> (t: Transition)
    ensures
        t.timed_signal == timed(off_task.at, 0, HardwareSignal::RadioDisable),
        t.ifs_us is None,
        t.shorts == (Shorts { end_disable: true, ..Shorts::spec_none() }),
        t.trigger is None,
{
    schedule_off_from_rx(off_task)
}

/// After the short is in place: an idle transmitter is disabled by
/// software; one that transmits, disables or is disabled needs nothing.
pub fn complete_off_from_tx(state: RadioState) -> (trigger: Option<RadioTrigger>)
    requires
        state == RadioState::TxIdle || state == RadioState::Tx || state == RadioState::TxDisable
            || state == RadioState::Disabled,
    ensures
        trigger == (if state == RadioState::TxIdle {
            Some(RadioTrigger::Disable)
        } else {
            None
        }),
{
    match state {
        RadioState::TxIdle => Some(RadioTrigger::Disable),
        _ => None,
    }
}

/// Falling back to the off state from any state: a disabled radio is off
/// already (`None`); a ramping, idle or active radio is disabled by
/// software, and then, as a disabling one, awaited (`Some(true)` and
/// `Some(false)`).
pub fn switch_off_action(state: RadioState) -> (r: Option<bool>)
    ensures
        r == (match state {
            RadioState::Disabled => None,
            RadioState::TxDisable | RadioState::RxDisable => Some(false),
            _ => Some(true),
        }),
{
    match state {
        RadioState::Disabled => None,
        RadioState::TxDisable | RadioState::RxDisable => Some(false),
        _ => Some(true),
    }
}

/// How a reception ends.
#[derive(Debug, PartialEq, Eq, Clone, Copy)]
pub enum RxOutcome {
    /// A frame with a valid CRC and the given MPDU length less the FCS.
    Frame(u16),
    /// A CRC error; the receiver is restarted into the same buffer when
    /// `restart` (back-to-back reception restarts by itself).
    CrcErrorRollback { restart: bool },
    /// A CRC error; the frame is handed back.
    CrcError,
    /// The reception window ended without a frame.
    RxWindowEnded,
}

/// The outcome of a reception from the CRC events, whether to roll back on
/// a CRC error, whether reception is back-to-back, and the PHY header (the
/// frame length including the FCS); a frame with a valid CRC is longer than
/// its FCS.
pub fn rx_outcome(
    crcok: bool,
    crcerror: bool,
    rollback_on_crcerror: bool,
    is_back_to_back_rx: bool,
    phr: u8,
) -> (o: RxOutcome)
    requires
        crcok ==> phr > FCS_LEN,
    ensures
        o == (if crcok {
            RxOutcome::Frame((phr - FCS_LEN) as u16)
        } else if crcerror {
            if rollback_on_crcerror {
                RxOutcome::CrcErrorRollback { restart: !is_back_to_back_rx }
            } else {
                RxOutcome::CrcError
            }
        } else {
            RxOutcome::RxWindowEnded
        }),
{
    if crcok {
        RxOutcome::Frame(phr as u16 - FCS_LEN)
    } else if crcerror {
        if rollback_on_crcerror {
            RxOutcome::CrcErrorRollback { restart: !is_back_to_back_rx }
        } else {
            RxOutcome::CrcError
        }
    } else {
        RxOutcome::RxWindowEnded
    }
}

/// How the driver waits for a reception to complete.
#[derive(Debug, PartialEq, Eq, Clone, Copy)]
pub enum RxWait {
    /// Wait for the timed signal.
    Timer,
    /// Wait for the end of the frame.
    FrameEnd,
    /// Cancel reception by disabling the receiver.
    Cancel,
}

/// Waiting for a reception: a timed transition waits for the timer; an
/// ongoing or back-to-back reception waits for the frame to end; otherwise
/// reception is cancelled.
pub fn rx_wait(timed: bool, reception_may_be_ongoing: bool, is_back_to_back_rx: bool) -> (w: RxWait)
    ensures
        w == (if timed {
            RxWait::Timer
        } else if reception_may_be_ongoing || is_back_to_back_rx {
            RxWait::FrameEnd
        } else {
            RxWait::Cancel
        }),
{
    if timed {
        RxWait::Timer
    } else if reception_may_be_ongoing || is_back_to_back_rx {
        RxWait::FrameEnd
    } else {
        RxWait::Cancel
    }
}

/// How a transmission ends.
#[derive(Debug, PartialEq, Eq, Clone, Copy)]
pub enum TxOutcome {
    /// The frame was sent.
    Sent,
    /// The channel was busy.
    CcaBusy,
    /// The transmission was interrupted.
    Interrupted,
}

/// Entering transmission: with CCA, a busy channel ends the task.
pub fn tx_transition_outcome(cca: bool, ccabusy: bool) -> (o: Option<TxOutcome>)
    ensures
        o == (if cca && ccabusy {
            Some(TxOutcome::CcaBusy)
        } else {
            None
        }),
{
    if cca && ccabusy {
        Some(TxOutcome::CcaBusy)
    } else {
        None
    }
}

/// After transmission: the end event tells a sent frame from an
/// interrupted one.
pub fn tx_outcome(end_event: bool) -> (o: TxOutcome)
    ensures
        o == (if end_event {
            TxOutcome::Sent
        } else {
            TxOutcome::Interrupted
        }),
{
    if end_event {
        TxOutcome::Sent
    } else {
        TxOutcome::Interrupted
    }
}

/// Writes the PHY header of a frame to transmit: the MPDU length plus the
/// FCS that the radio appends.
pub fn prepare_tx_frame(pdu: &mut Vec<u8>, sdu_wo_fcs_length: u16)
    requires
        old(pdu)@.len() > 0,
        sdu_wo_fcs_length + FCS_LEN <= 255,
    ensures
        final(pdu)@ == old(pdu)@.update(0, (sdu_wo_fcs_length + FCS_LEN) as u8),
{
    let phr = sdu_wo_fcs_length as u8 + FCS_LEN as u8;
    pdu.set(0, phr);
}

/// What the driver learns of a frame while receiving it.
#[derive(Debug)]
pub struct PreliminaryFrameInfo {
    /// The PHY header: the frame length including the FCS; zero when
    /// nothing was learnt.
    pub mpdu_length: u16,
    pub frame_control: Option<FrameControl>,
    pub seq_nr: Option<u8>,
    pub addressing_fields: Option<AddressingFields>,
}

/// The next step of capturing preliminary frame information.
#[derive(Debug)]
pub enum PreliminaryStep {
    /// Nothing can be learnt of the frame.
    Abort,
    /// The information is complete.
    Done(PreliminaryFrameInfo),
    /// Wait until the bit counter matches the given number of bits of the
    /// MPDU, then capture the fields.
    Wait { bcc: u32 },
}

/// The raw frame control field of a PDU whose first octet is the PHY
/// header.
pub open spec fn pdu_fc_raw(pdu: Seq<u8>) -> u16 {
    raw_of(pdu[1], pdu[2])
}

/// The addressing field lengths of a received frame, when its frame control
/// field has a known version, known addressing modes and a valid
/// combination of them.
pub open spec fn pdu_lengths(pdu: Seq<u8>) -> Option<[u16; 4]> {
    let f = fields_of(pdu_fc_raw(pdu));
    if f.frame_version == FrameVersion::Unknown || f.dst_addressing_mode == AddressingMode::Unknown
        || f.src_addressing_mode == AddressingMode::Unknown {
        None
    } else {
        match fc_flags(f.frame_version, f.dst_addressing_mode, f.src_addressing_mode, f.pan_id_compression) {
            Some(flags) => Some(lengths_of(flags)),
            None => None,
        }
    }
}

/// Length of the sequence number field of a received frame.
pub open spec fn pdu_seq_len(pdu: Seq<u8>) -> int {
    if fields_of(pdu_fc_raw(pdu)).sequence_number_suppression {
        0
    } else {
        1
    }
}

/// Whether `info` holds the frame length, frame control field, sequence
/// number and addressing fields of the PDU (PHY header first), each where
/// present and, for the addressing fields, where the PDU holds them.
pub open spec fn is_full_info(info: PreliminaryFrameInfo, pdu: Seq<u8>) -> bool {
    let l = pdu_lengths(pdu)->0;
    let start = 3 + pdu_seq_len(pdu);
    let n = total_of(l);
    &&& info.mpdu_length == pdu[0]
    &&& info.frame_control matches Some(fc) && fc.wf() && fc.raw() == pdu_fc_raw(pdu)
    &&& info.seq_nr == (if pdu_seq_len(pdu) == 0 {
        None
    } else {
        Some(pdu[3])
    })
    &&& if n > 0 && start + n <= pdu.len() {
        info.addressing_fields matches Some(a) && a.spec_bytes() == pdu.subrange(start, start + n)
            && a.spec_lengths() == l
    } else {
        info.addressing_fields is None
    }
}

/// The frame control field and the addressing representation of a received
/// frame, when its frame control field is valid.
fn pdu_frame_control(pdu: &[u8]) -> (r: Option<(FrameControl, Option<AddressingRepr>)>)
    requires
        pdu@.len() >= 3,
    ensures
        r is Some <==> pdu_lengths(pdu@) is Some,
        r matches Some((fc, repr)) ==> fc.wf() && fc.raw() == pdu_fc_raw(pdu@) && match repr {
            Some(a) => a.lengths() == pdu_lengths(pdu@) && total_of(pdu_lengths(pdu@)->0) > 0,
            None => total_of(pdu_lengths(pdu@)->0) == 0,
        },
{
    let bytes = [pdu[1], pdu[2]];
    let fc = FrameControl::new_unchecked(bytes.as_slice());
    if matches!(fc.frame_version(), FrameVersion::Unknown) || matches!(
        fc.dst_addressing_mode(),
        AddressingMode::Unknown
    ) || matches!(fc.src_addressing_mode(), AddressingMode::Unknown) {
        return None;
    }
    match AddressingRepr::from_frame_control(&fc) {
        Ok(repr) => Some((fc, repr)),
        Err(_) => None,
    }
}

/// Captures the frame length, frame control field, sequence number and
/// addressing fields of a received PDU whose frame control field is valid.
fn full_info(pdu: &[u8]) -> (info: PreliminaryFrameInfo)
    requires
        pdu@.len() >= 4,
        pdu_lengths(pdu@) is Some,
    ensures
        is_full_info(info, pdu@),
{
    let (fc, repr) = match pdu_frame_control(pdu) {
        Some(r) => r,
        None => unreached(),
    };
    let seq_nr = if fc.sequence_number_suppression() {
        None
    } else {
        Some(pdu[3])
    };
    let start: usize = if fc.sequence_number_suppression() {
        3
    } else {
        4
    };
    let addressing_fields = match repr {
        Some(a) => {
            let n = a.addressing_fields_length();
            match n {
                Ok(n) => {
                    if start + (n as usize) <= pdu.len() {
                        let bytes = &pdu[start..start + n as usize];
                        match AddressingFields::new_unchecked(bytes, a) {
                            Ok(fields) => Some(fields),
                            Err(_) => None,
                        }
                    } else {
                        None
                    }
                },
                Err(_) => None,
            }
        },
        None => None,
    };
    PreliminaryFrameInfo { mpdu_length: pdu[0] as u16, frame_control: Some(fc), seq_nr, addressing_fields }
}

/// The information of a frame of which nothing can be learnt.
pub fn no_frame_info() -> (info: PreliminaryFrameInfo)
    ensures
        info.mpdu_length == 0,
        info.frame_control is None,
        info.seq_nr is None,
        info.addressing_fields is None,
{
    PreliminaryFrameInfo { mpdu_length: 0, frame_control: None, seq_nr: None, addressing_fields: None }
}

/// First step of capturing preliminary frame information, once the frame
/// control field was received or the frame ended (`ended`), given the CRC
/// error event and the PDU (PHY header first).
///
/// A frame that ended with a CRC error or has an invalid frame control
/// field yields nothing. A frame without sequence number and destination
/// fields is complete with its frame control field. Otherwise, while the
/// frame is still being received, the driver waits until the sequence number
/// and destination fields are in; a frame that ended is captured at once.
pub fn preliminary_frame_control(ended: bool, crcerror: bool, pdu: &[u8]) -> (step: PreliminaryStep)
    requires
        pdu@.len() >= 4,
    ensures
        ({
            let l = pdu_lengths(pdu@)->0;
            let seq_len = pdu_seq_len(pdu@);
            let dst_len = l[0] + l[1];
            if (ended && crcerror) || pdu_lengths(pdu@) is None {
                step is Abort
            } else if seq_len == 0 && dst_len == 0 {
                step matches PreliminaryStep::Done(info) && info.mpdu_length == pdu@[0]
                    && (info.frame_control matches Some(fc) && fc.wf() && fc.raw() == pdu_fc_raw(
                    pdu@,
                )) && info.seq_nr is None && info.addressing_fields is None
            } else if !ended {
                step == PreliminaryStep::Wait { bcc: ((2 + seq_len + dst_len) * 8) as u32 }
            } else {
                step matches PreliminaryStep::Done(info) && is_full_info(info, pdu@)
            }
        }),
{
    if ended && crcerror {
        return PreliminaryStep::Abort;
    }
    let (fc, repr) = match pdu_frame_control(pdu) {
        Some(r) => r,
        None => {
            return PreliminaryStep::Abort;
        },
    };
    let lengths = match repr {
        Some(a) => match a.addressing_fields_lengths() {
            Ok(l) => l,
            Err(_) => unreached(),
        },
        None => {
            proof {
                let l = pdu_lengths(pdu@)->0;
                assert(l[0] == 0 && l[1] == 0);
            }
            [0u16, 0u16, 0u16, 0u16]
        },
    };
    let seq_len: u32 = if fc.sequence_number_suppression() {
        0
    } else {
        1
    };
    let dst_len = lengths[0] as u32 + lengths[1] as u32;
    if seq_len == 0 && dst_len == 0 {
        return PreliminaryStep::Done(
            PreliminaryFrameInfo {
                mpdu_length: pdu[0] as u16,
                frame_control: Some(fc),
                seq_nr: None,
                addressing_fields: None,
            },
        );
    }
    if !ended {
        let bits = 2 + seq_len + dst_len;
        assert(bits < 0x1000 ==> bits << 3u32 == bits * 8) by (bit_vector);
        return PreliminaryStep::Wait { bcc: bits << 3u32 };
    }
    PreliminaryStep::Done(full_info(pdu))
}

/// Second step of capturing preliminary frame information, once the
/// sequence number and destination fields were received or the frame ended
/// (`ended`): a frame that ended with a CRC error yields nothing, any other
/// is captured.
pub fn preliminary_fields(ended: bool, crcerror: bool, pdu: &[u8]) -> (info: Option<PreliminaryFrameInfo>)
    requires
        pdu@.len() >= 4,
        pdu_lengths(pdu@) is Some,
    ensures
        ended && crcerror ==> info is None,
        !(ended && crcerror) ==> (info matches Some(i) && is_full_info(i, pdu@)),
{
    if ended && crcerror {
        None
    } else {
        Some(full_info(pdu))
    }
}

} // verus!
