//! Staged parsing and building of MPDUs.
//!
//! An MPDU is laid out as frame control, sequence number, addressing fields,
//! auxiliary security header, information elements, frame payload, MIC and
//! FCS, in this order.

use core::marker::PhantomData;

use vstd::prelude::*;

use crate::addressing::AddressingMode;
use crate::driver::{spec_pdu_length, DriverConfig, RadioFrameRepr, RadioFrameSized};
use crate::frame_control::{FrameType, FrameVersion};
use crate::mpdu::{
    MpduFrame, MpduWithAddressing, MpduWithAllFields, MpduWithFrameControl, MpduWithIes,
    MpduWithSecurity, FRAME_CONTROL_LEN,
};
use crate::parser::addressing::{splice, AddressingFields};
use crate::parser::frame_control::{
    fields_of, law_addressing_mode_write_read, law_flag_write_read, law_frame_type_write_read,
    law_frame_version_write_read, with_flag, with_frame_type, with_two_bits, FrameControl,
    FrameControlFields,
    ACK_REQUEST_BIT, DST_MODE_BIT, FRAME_PENDING_BIT, IE_PRESENT_BIT, PAN_ID_COMPRESSION_BIT,
    SECURITY_ENABLED_BIT, SEQ_NR_SUPPRESSION_BIT, SRC_MODE_BIT, VERSION_BIT,
};
use crate::repr::addressing::{fc_flags, AddressingRepr, PanIdCompressionRepr};
use crate::repr::mpdu::{security_length, MpduRepr};
use crate::repr::security::SecurityRepr;
use crate::repr::seq_nr::SeqNrRepr;
use crate::Error;

verus! {

/// Offsets of the MPDU fields that a parser knows so far.
#[derive(Debug, Clone, Copy)]
pub struct ParserInfo {
    /// Buffer offset of the MPDU.
    pub offset: u16,
    /// Whether a sequence number is present.
    pub seq_nr: SeqNrRepr,
    /// Length of the addressing fields, once known.
    pub addressing_length: Option<u16>,
    /// Length of the auxiliary security header and of the MIC, once known.
    pub security_lengths: Option<(u16, u16)>,
    /// Length of the frame payload and of the FCS, once known.
    pub payload_and_fcs_lengths: Option<(u16, u16)>,
}

/// Octets from the MPDU start to the end of the auxiliary security header.
pub open spec fn header_end(info: ParserInfo) -> int {
    FRAME_CONTROL_LEN + info.seq_nr.spec_length() + (match info.addressing_length {
        Some(n) => n as int,
        None => 0,
    }) + (match info.security_lengths {
        Some((h, _)) => h as int,
        None => 0,
    })
}

/// Whether all ranges of the info up to the FCS fit 16-bit offsets.
pub open spec fn info_fits(info: ParserInfo) -> bool {
    info.offset + header_end(info) + (match info.security_lengths {
        Some((_, m)) => m as int,
        None => 0,
    }) + (match info.payload_and_fcs_lengths {
        Some((p, _)) => p as int,
        None => 0,
    }) <= u16::MAX
}

impl ParserInfo {
    fn new(offset: u16, seq_nr: SeqNrRepr) -> (i: Self)
        ensures
            i.offset == offset,
            i.seq_nr == seq_nr,
            i.addressing_length is None,
            i.security_lengths is None,
            i.payload_and_fcs_lengths is None,
    {
        ParserInfo {
            offset,
            seq_nr,
            addressing_length: None,
            security_lengths: None,
            payload_and_fcs_lengths: None,
        }
    }

    /// Range of the frame control field.
    pub fn range_frame_control(&self) -> (r: core::ops::Range<usize>)
        requires
            self.offset + FRAME_CONTROL_LEN <= u16::MAX,
        ensures
            r.start == self.offset,
            r.end == self.offset + FRAME_CONTROL_LEN,
    {
        self.offset as usize..(self.offset + FRAME_CONTROL_LEN) as usize
    }

    /// Offset of the sequence number field.
    pub fn offset_seq_nr(&self) -> (o: u16)
        requires
            self.offset + FRAME_CONTROL_LEN <= u16::MAX,
        ensures
            o == self.offset + FRAME_CONTROL_LEN,
    {
        self.offset + FRAME_CONTROL_LEN
    }

    /// Range of the addressing fields, once known.
    pub fn range_addressing(&self) -> (r: Option<core::ops::Range<usize>>)
        requires
            info_fits(*self),
        ensures
            match self.addressing_length {
                Some(n) => r matches Some(range) && range.start == self.offset + FRAME_CONTROL_LEN
                    + self.seq_nr.spec_length() && range.end == range.start + n,
                None => r is None,
            },
    {
        match self.addressing_length {
            Some(n) => {
                let start = (self.offset + FRAME_CONTROL_LEN + self.seq_nr.length()) as usize;
                Some(start..start + n as usize)
            },
            None => None,
        }
    }

    /// Range of the frame payload, once known.
    pub fn range_frame_payload(&self) -> (r: Option<core::ops::Range<usize>>)
        requires
            info_fits(*self),
        ensures
            match self.payload_and_fcs_lengths {
                Some((p, _)) => r matches Some(range) && range.start == self.offset + header_end(
                    *self,
                ) && range.end == range.start + p,
                None => r is None,
            },
    {
        match self.payload_and_fcs_lengths {
            Some((p, _)) => {
                let start = (self.offset + self.header_length()) as usize;
                Some(start..start + p as usize)
            },
            None => None,
        }
    }

    /// Range of the FCS, once known: after the frame payload and the MIC.
    pub fn range_fcs(&self) -> (r: Option<core::ops::Range<usize>>)
        requires
            info_fits(*self),
        ensures
            match self.payload_and_fcs_lengths {
                Some((p, f)) => r matches Some(range) && range.start == self.offset + header_end(
                    *self,
                ) + p + (match self.security_lengths {
                    Some((_, m)) => m as int,
                    None => 0,
                }) && range.end == range.start + f,
                None => r is None,
            },
    {
        match self.payload_and_fcs_lengths {
            Some((p, f)) => {
                let mic = match self.security_lengths {
                    Some((_, m)) => m,
                    None => 0,
                };
                let start = (self.offset + self.header_length() + p + mic) as usize;
                Some(start..start + f as usize)
            },
            None => None,
        }
    }

    fn header_length(&self) -> (n: u16)
        requires
            info_fits(*self),
        ensures
            n == header_end(*self),
    {
        let a = match self.addressing_length {
            Some(n) => n,
            None => 0,
        };
        let h = match self.security_lengths {
            Some((h, _)) => h,
            None => 0,
        };
        FRAME_CONTROL_LEN + self.seq_nr.length() + a + h
    }
}

/// The Frame Control field of a frame built from scratch: all sub-fields
/// zero, then frame version, frame type, sequence number suppression, PAN ID
/// compression, addressing modes, security enabled and IE present written.
pub open spec fn built_fc_raw(
    version: FrameVersion,
    frame_type: FrameType,
    seq_nr_suppression: bool,
    pan_id_compression: bool,
    dst: AddressingMode,
    src: AddressingMode,
    security_enabled: bool,
    ie_present: bool,
) -> u16 {
    let r = with_two_bits(0u16, VERSION_BIT, version.code());
    let r = with_frame_type(r, frame_type.code());
    let r = with_flag(r, SEQ_NR_SUPPRESSION_BIT, seq_nr_suppression);
    let r = with_flag(r, PAN_ID_COMPRESSION_BIT, pan_id_compression);
    let r = with_two_bits(r, DST_MODE_BIT, dst.code());
    let r = with_two_bits(r, SRC_MODE_BIT, src.code());
    let r = with_flag(r, SECURITY_ENABLED_BIT, security_enabled);
    with_flag(r, IE_PRESENT_BIT, ie_present)
}

/// A partially or fully parsed MPDU that provides staged access to frame
/// content.
#[derive(Debug)]
pub struct ParsedMpdu<State> {
    parser_info: ParserInfo,
    mpdu: MpduFrame,
    state: PhantomData<State>,
}

impl<State> ParsedMpdu<State> {
    /// The parser's knowledge of the field offsets.
    pub closed spec fn spec_info(self) -> ParserInfo {
        self.parser_info
    }

    /// The MPDU.
    pub closed spec fn spec_mpdu(self) -> MpduFrame {
        self.mpdu
    }

    /// The parser info refers to the MPDU's offset and fits 16-bit offsets,
    /// and the buffer holds the frame control field.
    pub open spec fn wf(self) -> bool {
        &&& self.spec_info().offset == self.spec_mpdu().spec_offset()
        &&& info_fits(self.spec_info())
        &&& self.spec_mpdu().has_frame_control()
    }

    /// See [`MpduFrame::frame_control()`].
    pub fn frame_control(&self) -> (fc: FrameControl)
        requires
            self.wf(),
        ensures
            fc.wf(),
            fc.raw() == self.spec_mpdu().spec_fc_raw(),
    {
        self.mpdu.frame_control()
    }

    /// See [`FrameControl::set_ack_request()`].
    pub fn set_ack_request(&mut self, ack_request: bool)
        requires
            old(self).wf(),
        ensures
            final(self).wf(),
            final(self).spec_info() == old(self).spec_info(),
            final(self).spec_mpdu().spec_fc_raw() == with_flag(
                old(self).spec_mpdu().spec_fc_raw(),
                ACK_REQUEST_BIT,
                ack_request,
            ),
            final(self).spec_mpdu().spec_buffer().len() == old(self).spec_mpdu().spec_buffer().len(),
            final(self).spec_mpdu().spec_length_wo_fcs() == old(self).spec_mpdu().spec_length_wo_fcs(),
            forall|i: int|
                0 <= i < old(self).spec_mpdu().spec_buffer().len() && i != old(self).spec_info().offset
                    && i != old(self).spec_info().offset + 1 ==> final(self).spec_mpdu().spec_buffer()[i]
                    == old(self).spec_mpdu().spec_buffer()[i],
    {
        let mut fc = self.mpdu.frame_control();
        fc.set_ack_request(ack_request);
        self.mpdu.write_frame_control(&fc);
    }

    /// See [`FrameControl::set_frame_pending()`].
    pub fn set_frame_pending(&mut self, frame_pending: bool)
        requires
            old(self).wf(),
        ensures
            final(self).wf(),
            final(self).spec_info() == old(self).spec_info(),
            final(self).spec_mpdu().spec_fc_raw() == with_flag(
                old(self).spec_mpdu().spec_fc_raw(),
                FRAME_PENDING_BIT,
                frame_pending,
            ),
            final(self).spec_mpdu().spec_buffer().len() == old(self).spec_mpdu().spec_buffer().len(),
            final(self).spec_mpdu().spec_length_wo_fcs() == old(self).spec_mpdu().spec_length_wo_fcs(),
            forall|i: int|
                0 <= i < old(self).spec_mpdu().spec_buffer().len() && i != old(self).spec_info().offset
                    && i != old(self).spec_info().offset + 1 ==> final(self).spec_mpdu().spec_buffer()[i]
                    == old(self).spec_mpdu().spec_buffer()[i],
    {
        let mut fc = self.mpdu.frame_control();
        fc.set_frame_pending(frame_pending);
        self.mpdu.write_frame_control(&fc);
    }

    /// See [`MpduFrame::sequence_number()`].
    pub fn sequence_number(&self) -> (n: Option<u8>)
        requires
            self.wf(),
            !self.spec_mpdu().spec_seq_nr_suppressed() ==> self.spec_mpdu().spec_offset() + 2
                < self.spec_mpdu().spec_buffer().len(),
        ensures
            n == self.spec_mpdu().spec_sequence_number(),
    {
        self.mpdu.sequence_number()
    }

    /// See [`MpduFrame::set_sequence_number()`].
    pub fn set_sequence_number(&mut self, seq_num: u8)
        requires
            old(self).wf(),
            !old(self).spec_mpdu().spec_seq_nr_suppressed(),
            old(self).spec_mpdu().spec_offset() + 2 < old(self).spec_mpdu().spec_buffer().len(),
        ensures
            final(self).wf(),
            final(self).spec_info() == old(self).spec_info(),
            final(self).spec_mpdu().spec_buffer() == old(self).spec_mpdu().spec_buffer().update(
                old(self).spec_mpdu().spec_offset() + 2,
                seq_num,
            ),
            final(self).spec_mpdu().spec_offset() == old(self).spec_mpdu().spec_offset(),
            final(self).spec_mpdu().spec_length_wo_fcs() == old(self).spec_mpdu().spec_length_wo_fcs(),
    {
        self.mpdu.set_sequence_number(seq_num)
    }

    /// Releases the MPDU.
    pub fn into_mpdu_frame(self) -> (m: MpduFrame)
        ensures
            m == self.spec_mpdu(),
    {
        self.mpdu
    }
}

impl ParsedMpdu<MpduWithFrameControl> {
    /// Initializes a partially parsed MPDU with access to the frame control
    /// and sequence number fields from an unparsed MPDU.
    ///
    /// This is used to parse an incoming MPDU.
    pub fn new(mpdu: MpduFrame) -> (p: Self)
        requires
            mpdu.has_frame_control(),
            mpdu.spec_offset() + FRAME_CONTROL_LEN + 1 <= u16::MAX,
        ensures
            p.wf(),
            p.spec_mpdu() == mpdu,
            p.spec_info() == (ParserInfo {
                offset: mpdu.spec_offset(),
                seq_nr: if mpdu.spec_seq_nr_suppressed() {
                    SeqNrRepr::No
                } else {
                    SeqNrRepr::Yes
                },
                addressing_length: None,
                security_lengths: None,
                payload_and_fcs_lengths: None,
            }),
    {
        let seq_nr = if mpdu.frame_control().sequence_number_suppression() {
            SeqNrRepr::No
        } else {
            SeqNrRepr::Yes
        };
        ParsedMpdu { parser_info: ParserInfo::new(mpdu.offset(), seq_nr), mpdu, state: PhantomData }
    }

    /// Parses the frame control field to identify the addressing
    /// configuration of the MPDU.
    ///
    /// The frame version and the addressing modes must be known.
    pub fn parse_addressing(self) -> (res: Result<ParsedMpdu<MpduWithAddressing>, Error>)
        requires
            self.wf(),
            self.spec_info().addressing_length is None,
            self.spec_info().security_lengths is None,
            self.spec_info().payload_and_fcs_lengths is None,
            self.spec_mpdu().spec_offset() + FRAME_CONTROL_LEN + 1 + 20 <= u16::MAX,
            fields_of(self.spec_mpdu().spec_fc_raw()).frame_version != FrameVersion::Unknown,
            fields_of(self.spec_mpdu().spec_fc_raw()).dst_addressing_mode != AddressingMode::Unknown,
            fields_of(self.spec_mpdu().spec_fc_raw()).src_addressing_mode != AddressingMode::Unknown,
        ensures
            ({
                let f = fields_of(self.spec_mpdu().spec_fc_raw());
                match fc_flags(f.frame_version, f.dst_addressing_mode, f.src_addressing_mode, f.pan_id_compression) {
                    None => res is Err,
                    Some(flags) => res matches Ok(p) && p.wf() && p.spec_mpdu() == self.spec_mpdu()
                        && p.spec_info() == (ParserInfo {
                        addressing_length: Some(
                            crate::repr::addressing::total_of(
                                crate::repr::addressing::lengths_of(flags),
                            ) as u16,
                        ),
                        ..self.spec_info()
                    }),
                }
            }),
    {
        let addressing = AddressingRepr::from_frame_control(&self.frame_control())?;
        let len = match addressing {
            Some(a) => a.addressing_fields_length()?,
            None => 0,
        };
        let mut parser_info = self.parser_info;
        parser_info.addressing_length = Some(len);
        Ok(ParsedMpdu { parser_info, mpdu: self.mpdu, state: PhantomData })
    }
}

impl ParsedMpdu<MpduWithAddressing> {
    /// Identifies the security configuration of the MPDU; secured frames are
    /// not supported.
    pub fn parse_security(self) -> (p: ParsedMpdu<MpduWithSecurity>)
        requires
            self.wf(),
            !fields_of(self.spec_mpdu().spec_fc_raw()).security_enabled,
        ensures
            p.wf(),
            p.spec_mpdu() == self.spec_mpdu(),
            p.spec_info() == (ParserInfo { security_lengths: Some((0u16, 0u16)), ..self.spec_info() }),
    {
        let mut parser_info = self.parser_info;
        parser_info.security_lengths = Some((0, 0));
        ParsedMpdu { parser_info, mpdu: self.mpdu, state: PhantomData }
    }
}

impl ParsedMpdu<MpduWithSecurity> {
    /// Identifies the information elements of the MPDU and with them the
    /// frame payload; frames with information elements are not supported.
    ///
    /// Fails where the MPDU is too short for its header and MIC.
    pub fn parse_ies<Config: DriverConfig>(self) -> (res: Result<ParsedMpdu<MpduWithAllFields>, Error>)
        requires
            self.wf(),
            self.spec_info().payload_and_fcs_lengths is None,
            !fields_of(self.spec_mpdu().spec_fc_raw()).information_elements_present,
            self.spec_info().offset + self.spec_mpdu().spec_length_wo_fcs() + Config::spec_fcs_length()
                <= u16::MAX,
        ensures
            ({
                let info = self.spec_info();
                let mic = match info.security_lengths {
                    Some((_, m)) => m as int,
                    None => 0,
                };
                let len = self.spec_mpdu().spec_length_wo_fcs();
                if header_end(info) + mic <= len {
                    res matches Ok(p) && p.wf() && p.spec_mpdu() == self.spec_mpdu() && p.spec_info()
                        == (ParserInfo {
                        payload_and_fcs_lengths: Some(
                            ((len - header_end(info) - mic) as u16, Config::spec_fcs_length()),
                        ),
                        ..info
                    })
                } else {
                    res is Err
                }
            }),
    {
        let info = self.parser_info;
        let mic = match info.security_lengths {
            Some((_, m)) => m,
            None => 0,
        };
        let len = self.mpdu.pdu_length_wo_fcs();
        let header = info.header_length();
        if header as u32 + mic as u32 > len as u32 {
            return Err(Error);
        }
        let mut parser_info = info;
        parser_info.payload_and_fcs_lengths = Some((len - header - mic, Config::fcs_length()));
        Ok(ParsedMpdu { parser_info, mpdu: self.mpdu, state: PhantomData })
    }
}

/// A marker of parsing states that know the addressing fields.
pub trait ParsedUpToAddressing {

}

impl ParsedUpToAddressing for MpduWithAddressing {

}

impl ParsedUpToAddressing for MpduWithSecurity {

}

impl ParsedUpToAddressing for MpduWithAllFields {

}

/// A marker of parsing states that know the security fields.
pub trait ParsedUpToSecurity {

}

impl ParsedUpToSecurity for MpduWithSecurity {

}

impl ParsedUpToSecurity for MpduWithAllFields {

}

impl<State: ParsedUpToAddressing> ParsedMpdu<State> {
    /// Addressing field access: `Ok(None)` for a frame without addressing
    /// fields.
    ///
    /// The frame version and the addressing modes must be known, and the
    /// buffer must hold the addressing fields.
    pub fn addressing_fields(&self) -> (res: Result<Option<AddressingFields>, Error>)
        requires
            self.wf(),
            fields_of(self.spec_mpdu().spec_fc_raw()).frame_version != FrameVersion::Unknown,
            fields_of(self.spec_mpdu().spec_fc_raw()).dst_addressing_mode != AddressingMode::Unknown,
            fields_of(self.spec_mpdu().spec_fc_raw()).src_addressing_mode != AddressingMode::Unknown,
            self.spec_info().addressing_length matches Some(n) && self.spec_info().offset
                + FRAME_CONTROL_LEN + self.spec_info().seq_nr.spec_length() + n
                <= self.spec_mpdu().spec_buffer().len(),
            ({
                let f = fields_of(self.spec_mpdu().spec_fc_raw());
                fc_flags(f.frame_version, f.dst_addressing_mode, f.src_addressing_mode, f.pan_id_compression) matches Some(
                    flags,
                ) ==> self.spec_info().addressing_length == Some(
                    crate::repr::addressing::total_of(crate::repr::addressing::lengths_of(flags))
                        as u16,
                )
            }),
        ensures
            ({
                let f = fields_of(self.spec_mpdu().spec_fc_raw());
                let start = self.spec_info().offset + FRAME_CONTROL_LEN
                    + self.spec_info().seq_nr.spec_length();
                match fc_flags(f.frame_version, f.dst_addressing_mode, f.src_addressing_mode, f.pan_id_compression) {
                    None => res is Err,
                    Some(flags) => {
                        let n = crate::repr::addressing::total_of(
                            crate::repr::addressing::lengths_of(flags),
                        );
                        if n == 0 {
                            res == Ok::<Option<AddressingFields>, Error>(None)
                        } else {
                            res matches Ok(Some(a)) && a.spec_bytes()
                                == self.spec_mpdu().spec_buffer().subrange(start, start + n)
                                && a.spec_lengths() == crate::repr::addressing::lengths_of(flags)
                        }
                    },
                }
            }),
    {
        let addressing_repr = match AddressingRepr::from_frame_control(&self.frame_control())? {
            Some(addressing_repr) => addressing_repr,
            None => {
                return Ok(None);
            },
        };
        let range = match self.parser_info.range_addressing() {
            Some(range) => range,
            None => {
                return Err(Error);
            },
        };
        let bytes = &self.mpdu.as_bytes()[range];
        let fields = AddressingFields::new_unchecked(bytes, addressing_repr)?;
        Ok(Some(fields))
    }
}

impl ParsedMpdu<MpduWithAllFields> {
    /// The frame payload, when the buffer holds it.
    pub fn frame_payload(&self) -> (p: Option<&[u8]>)
        requires
            self.wf(),
        ensures
            match self.spec_info().payload_and_fcs_lengths {
                Some((n, _)) => {
                    let start = self.spec_info().offset + header_end(self.spec_info());
                    if start + n <= self.spec_mpdu().spec_buffer().len() {
                        p matches Some(s) && s@ == self.spec_mpdu().spec_buffer().subrange(
                            start,
                            start + n,
                        )
                    } else {
                        p is None
                    }
                },
                None => p is None,
            },
    {
        let range = self.parser_info.range_frame_payload()?;
        if range.end > self.mpdu.as_bytes().len() {
            return None;
        }
        Some(&self.mpdu.as_bytes()[range])
    }

    /// The FCS, when the buffer holds it.
    pub fn fcs(&self) -> (p: Option<&[u8]>)
        requires
            self.wf(),
        ensures
            match self.spec_info().payload_and_fcs_lengths {
                Some((n, f)) => {
                    let mic = match self.spec_info().security_lengths {
                        Some((_, m)) => m as int,
                        None => 0,
                    };
                    let start = self.spec_info().offset + header_end(self.spec_info()) + n + mic;
                    if start + f <= self.spec_mpdu().spec_buffer().len() {
                        p matches Some(s) && s@ == self.spec_mpdu().spec_buffer().subrange(
                            start,
                            start + f,
                        )
                    } else {
                        p is None
                    }
                },
                None => p is None,
            },
    {
        let range = self.parser_info.range_fcs()?;
        if range.end > self.mpdu.as_bytes().len() {
            return None;
        }
        Some(&self.mpdu.as_bytes()[range])
    }

    /// Overwrites the frame payload with the given octets, which must have
    /// its length; every other octet keeps its value. Fails, changing
    /// nothing, where the payload length is not known, the buffer does not
    /// hold the payload, or the octets have another length.
    pub fn set_frame_payload(&mut self, payload: &[u8]) -> (res: Result<(), Error>)
        requires
            old(self).wf(),
        ensures
            final(self).wf(),
            final(self).spec_info() == old(self).spec_info(),
            final(self).spec_mpdu().spec_offset() == old(self).spec_mpdu().spec_offset(),
            final(self).spec_mpdu().spec_length_wo_fcs() == old(self).spec_mpdu().spec_length_wo_fcs(),
            match old(self).spec_info().payload_and_fcs_lengths {
                Some((n, _)) => {
                    let start = old(self).spec_info().offset + header_end(old(self).spec_info());
                    if start + n <= old(self).spec_mpdu().spec_buffer().len() && payload@.len() == n {
                        res is Ok && final(self).spec_mpdu().spec_buffer() == splice(
                            old(self).spec_mpdu().spec_buffer(),
                            start,
                            payload@,
                        )
                    } else {
                        res is Err && final(self).spec_mpdu() == old(self).spec_mpdu()
                    }
                },
                None => res is Err && final(self).spec_mpdu() == old(self).spec_mpdu(),
            },
    {
        let range = match self.parser_info.range_frame_payload() {
            Some(r) => r,
            None => {
                return Err(Error);
            },
        };
        if range.end > self.mpdu.as_bytes().len() || payload.len() != range.end - range.start {
            return Err(Error);
        }
        self.mpdu.write_bytes(range.start, payload);
        Ok(())
    }

    /// Overwrites the FCS with the given octets, which must have its length;
    /// every other octet keeps its value. Fails, changing nothing, where the
    /// FCS length is not known, the buffer does not hold the FCS, or the
    /// octets have another length.
    pub fn set_fcs(&mut self, fcs: &[u8]) -> (res: Result<(), Error>)
        requires
            old(self).wf(),
        ensures
            final(self).wf(),
            final(self).spec_info() == old(self).spec_info(),
            final(self).spec_mpdu().spec_offset() == old(self).spec_mpdu().spec_offset(),
            final(self).spec_mpdu().spec_length_wo_fcs() == old(self).spec_mpdu().spec_length_wo_fcs(),
            match old(self).spec_info().payload_and_fcs_lengths {
                Some((n, f)) => {
                    let mic = match old(self).spec_info().security_lengths {
                        Some((_, m)) => m as int,
                        None => 0,
                    };
                    let start = old(self).spec_info().offset + header_end(old(self).spec_info()) + n
                        + mic;
                    if start + f <= old(self).spec_mpdu().spec_buffer().len() && fcs@.len() == f {
                        res is Ok && final(self).spec_mpdu().spec_buffer() == splice(
                            old(self).spec_mpdu().spec_buffer(),
                            start,
                            fcs@,
                        )
                    } else {
                        res is Err && final(self).spec_mpdu() == old(self).spec_mpdu()
                    }
                },
                None => res is Err && final(self).spec_mpdu() == old(self).spec_mpdu(),
            },
    {
        let range = match self.parser_info.range_fcs() {
            Some(r) => r,
            None => {
                return Err(Error);
            },
        };
        if range.end > self.mpdu.as_bytes().len() || fcs.len() != range.end - range.start {
            return Err(Error);
        }
        self.mpdu.write_bytes(range.start, fcs);
        Ok(())
    }
}

/// Addressing modes and PAN ID compression that an MPDU representation
/// writes into the Frame Control field: absent addresses and no compression
/// for a frame without addressing.
pub open spec fn repr_fc_addressing(addressing: Option<AddressingRepr>) -> (AddressingMode, AddressingMode, bool) {
    match addressing {
        Some(a) => (a.spec_dst(), a.spec_src(), a.spec_pan_id_compression()),
        None => (AddressingMode::Absent, AddressingMode::Absent, false),
    }
}

/// Length of the auxiliary security header and of the MIC of a
/// representation.
pub open spec fn repr_security_lengths(security: Option<SecurityRepr>) -> (u16, u16) {
    match security {
        Some(s) => (s.spec_aux_sec_header_length(), s.security_level.spec_mic_length()),
        None => (0, 0),
    }
}

/// Length of the addressing fields of a representation.
pub open spec fn repr_addressing_length(addressing: Option<AddressingRepr>) -> u16 {
    match addressing {
        Some(a) => match a.fields_length() {
            Some(n) => n as u16,
            None => 0,
        },
        None => 0,
    }
}

/// The Frame Control field that [`MpduRepr::into_parsed_mpdu`] writes.
pub open spec fn repr_fc_raw(
    r: MpduRepr<MpduWithIes>,
    frame_version: FrameVersion,
    frame_type: FrameType,
) -> u16 {
    let (dst, src, pan_id_compression) = repr_fc_addressing(r.spec_addressing());
    built_fc_raw(
        frame_version,
        frame_type,
        r.spec_seq_nr() == SeqNrRepr::No,
        pan_id_compression,
        dst,
        src,
        r.spec_security() is Some,
        false,
    )
}

/// `bytes` with the two octets at `offset` replaced by the little-endian
/// octets of the 16-bit value `raw`.
pub open spec fn with_fc_bytes(bytes: Seq<u8>, offset: int, raw: u16) -> Seq<u8> {
    bytes.update(offset, (raw % 256) as u8).update(offset + 1, (raw / 256) as u8)
}

proof fn lemma_raw_zero()
    ensures
        crate::parser::frame_control::raw_of(0u8, 0u8) == 0,
{
    assert(crate::parser::frame_control::raw_of(0u8, 0u8) == 0) by (bit_vector);
}

proof fn lemma_raw_bytes(r: u16, b0: u8, b1: u8)
    requires
        crate::parser::frame_control::raw_of(b0, b1) == r,
    ensures
        b0 == (r % 256) as u8,
        b1 == (r / 256) as u8,
{
    assert(crate::parser::frame_control::raw_of(b0, b1) == r ==> b0 == (r % 256) as u8 && b1 == (r
        / 256) as u8) by (bit_vector);
}

impl MpduRepr<MpduWithIes> {
    /// Allocates and initializes an MPDU reader/writer based on this MPDU
    /// representation; used to build an MPDU from scratch.
    ///
    /// The Frame Control field is written from the representation and the
    /// arguments, with "Frame Pending" and "AR" cleared; the rest of the
    /// buffer is left as given. Fails where the addressing is invalid.
    ///
    /// The buffer must hold the radio frame.
    pub fn into_parsed_mpdu<Config: DriverConfig>(
        &self,
        frame_version: FrameVersion,
        frame_type: FrameType,
        frame_payload_length: u16,
        buffer: Vec<u8>,
    ) -> (res: Result<ParsedMpdu<MpduWithAllFields>, Error>)
        requires
            self.spec_less_ies_and_payload() matches Some(n) ==> {
                let len = n + frame_payload_length;
                &&& len <= u16::MAX
                &&& len > Config::spec_fcs_length()
                &&& spec_pdu_length(Config::spec_headroom(), len as u16, Config::spec_tailroom())
                    <= u16::MAX
                &&& buffer@.len() >= spec_pdu_length(
                    Config::spec_headroom(),
                    len as u16,
                    Config::spec_tailroom(),
                )
            },
        ensures
            match self.spec_less_ies_and_payload() {
                None => res is Err,
                Some(n) => res matches Ok(p) && {
                    let h = Config::spec_headroom();
                    &&& p.wf()
                    &&& p.spec_mpdu().spec_offset() == h
                    &&& p.spec_mpdu().spec_length_wo_fcs() == n + frame_payload_length
                    &&& p.spec_mpdu().spec_buffer() == with_fc_bytes(
                        buffer@,
                        h as int,
                        repr_fc_raw(*self, frame_version, frame_type),
                    )
                    &&& p.spec_mpdu().spec_fc_raw() == repr_fc_raw(*self, frame_version, frame_type)
                    &&& p.spec_info() == (ParserInfo {
                        offset: h,
                        seq_nr: self.spec_seq_nr(),
                        addressing_length: Some(repr_addressing_length(self.spec_addressing())),
                        security_lengths: Some(repr_security_lengths(self.spec_security())),
                        payload_and_fcs_lengths: Some(
                            (frame_payload_length, Config::spec_fcs_length()),
                        ),
                    })
                },
            },
    {
        let mpdu_length_wo_fcs = self.mpdu_length_wo_fcs(frame_payload_length)?;
        let radio_frame_repr = RadioFrameRepr::<Config, RadioFrameSized>::new(mpdu_length_wo_fcs);
        let offset_mpdu = radio_frame_repr.headroom_length();
        let mut mpdu = MpduFrame::new(buffer, offset_mpdu, mpdu_length_wo_fcs);

        let seq_nr = self.seq_nr();
        let seq_num_suppression = matches!(seq_nr, SeqNrRepr::No);
        let (dst_addr_mode, src_addr_mode, pan_id_compression, addressing_length) =
            match &self.addressing() {
            Some(addressing) => {
                let len = addressing.addressing_fields_length()?;
                (
                    addressing.dst_addr_mode(),
                    addressing.src_addr_mode(),
                    addressing.pan_id_compression(),
                    len,
                )
            },
            None => (AddressingMode::Absent, AddressingMode::Absent, false, 0),
        };
        let security = self.security();
        let security_enabled = security.is_some();
        let security_lengths = match &security {
            Some(security) => (security.aux_sec_header_length(), security.mic_length()),
            None => (0, 0),
        };
        let ie_present = false;

        // All frame control fields default to zero.
        let zero = [0u8, 0u8];
        let mut fc = FrameControl::new_unchecked(zero.as_slice());
        proof {
            lemma_raw_zero();
        }
        fc.set_frame_version(frame_version);
        fc.set_frame_type(frame_type);
        fc.set_sequence_number_suppression(seq_num_suppression);
        fc.set_pan_id_compression(pan_id_compression);
        fc.set_dst_addressing_mode(dst_addr_mode);
        fc.set_src_addressing_mode(src_addr_mode);
        fc.set_security_enabled(security_enabled);
        fc.set_information_elements_present(ie_present);
        mpdu.write_frame_control(&fc);
        proof {
            lemma_raw_bytes(fc.raw(), fc@[0], fc@[1]);
        }

        let parser_info = ParserInfo {
            offset: offset_mpdu,
            seq_nr,
            addressing_length: Some(addressing_length),
            security_lengths: Some(security_lengths),
            payload_and_fcs_lengths: Some((frame_payload_length, Config::fcs_length())),
        };
        Ok(ParsedMpdu { parser_info, mpdu, state: PhantomData })
    }
}

/// The representation of an immediate acknowledgement frame: a sequence
/// number and no addressing, security or information elements.
pub fn imm_ack_frame_repr() -> (r: MpduRepr<MpduWithIes>)
    ensures
        r.spec_seq_nr() == SeqNrRepr::Yes,
        r.spec_addressing() is None,
        r.spec_security() is None,
{
    crate::repr::mpdu::mpdu_repr().with_frame_control(SeqNrRepr::Yes).without_addressing().without_security().without_ies()
}

/// Builds an immediate acknowledgement frame in the given buffer: an
/// IEEE 802.15.4-2006 Ack frame with the given sequence number.
///
/// The buffer must hold the radio frame, and the driver's FCS must be
/// shorter than the three octets of the frame.
pub fn imm_ack_frame<Config: DriverConfig>(seq_num: u8, buffer: Vec<u8>) -> (m: MpduFrame)
    requires
        Config::spec_fcs_length() < 3,
        spec_pdu_length(Config::spec_headroom(), 3, Config::spec_tailroom()) <= u16::MAX,
        buffer@.len() >= spec_pdu_length(Config::spec_headroom(), 3, Config::spec_tailroom()),
    ensures
        m.spec_offset() == Config::spec_headroom(),
        m.spec_length_wo_fcs() == 3,
        m.spec_fc_raw() == built_fc_raw(
            FrameVersion::Ieee802154_2006,
            FrameType::Ack,
            false,
            false,
            AddressingMode::Absent,
            AddressingMode::Absent,
            false,
            false,
        ),
        m.spec_buffer() == with_fc_bytes(
            buffer@,
            Config::spec_headroom() as int,
            m.spec_fc_raw(),
        ).update(Config::spec_headroom() + 2, seq_num),
{
    let repr = imm_ack_frame_repr();
    let res = repr.into_parsed_mpdu::<Config>(FrameVersion::Ieee802154_2006, FrameType::Ack, 0, buffer);
    match res {
        Ok(mut ack_frame) => {
            proof {
                law_built_frame_control(
                    FrameVersion::Ieee802154_2006,
                    FrameType::Ack,
                    false,
                    false,
                    AddressingMode::Absent,
                    AddressingMode::Absent,
                    false,
                    false,
                );
            }
            ack_frame.set_sequence_number(seq_num);
            ack_frame.into_mpdu_frame()
        },
        Err(_) => unreached(),
    }
}

/// A Frame Control field built from scratch reads back the structure it was
/// built with: the written sub-fields, "Frame Pending" and "AR" cleared.
pub proof fn law_built_frame_control(
    version: FrameVersion,
    frame_type: FrameType,
    seq_nr_suppression: bool,
    pan_id_compression: bool,
    dst: AddressingMode,
    src: AddressingMode,
    security_enabled: bool,
    ie_present: bool,
)
    requires
        frame_type != FrameType::Unknown,
        dst != AddressingMode::Unknown,
        src != AddressingMode::Unknown,
    ensures
        fields_of(
            built_fc_raw(
                version,
                frame_type,
                seq_nr_suppression,
                pan_id_compression,
                dst,
                src,
                security_enabled,
                ie_present,
            ),
        ) == (FrameControlFields {
            frame_type,
            security_enabled,
            frame_pending: false,
            ack_request: false,
            pan_id_compression,
            sequence_number_suppression: seq_nr_suppression,
            information_elements_present: ie_present,
            dst_addressing_mode: dst,
            src_addressing_mode: src,
            frame_version: version,
        }),
{
    assert(fields_of(0u16).frame_pending == false && fields_of(0u16).ack_request == false) by (
    bit_vector);
    let r0 = with_two_bits(0u16, VERSION_BIT, version.code());
    law_frame_version_write_read(0u16, version);
    let r1 = with_frame_type(r0, frame_type.code());
    law_frame_type_write_read(r0, frame_type);
    let r2 = with_flag(r1, SEQ_NR_SUPPRESSION_BIT, seq_nr_suppression);
    law_flag_write_read(r1, seq_nr_suppression);
    let r3 = with_flag(r2, PAN_ID_COMPRESSION_BIT, pan_id_compression);
    law_flag_write_read(r2, pan_id_compression);
    let r4 = with_two_bits(r3, DST_MODE_BIT, dst.code());
    law_addressing_mode_write_read(r3, dst);
    let r5 = with_two_bits(r4, SRC_MODE_BIT, src.code());
    law_addressing_mode_write_read(r4, src);
    let r6 = with_flag(r5, SECURITY_ENABLED_BIT, security_enabled);
    law_flag_write_read(r5, security_enabled);
    law_flag_write_read(r6, ie_present);
}

impl<State> crate::frame::IntoBuffer for ParsedMpdu<State> {
    fn into_buffer(self) -> (b: Vec<u8>)
        ensures
            b@ == self.spec_mpdu().spec_buffer(),
    {
        crate::frame::IntoBuffer::into_buffer(self.mpdu)
    }
}

impl<State> crate::frame::FramePdu for ParsedMpdu<State> {
    type Pdu = Self;

    fn pdu_ref(&self) -> (p: &Self)
        ensures
            *p == *self,
    {
        self
    }
}

/// The Frame Control field that an MPDU built from a representation of a
/// 2015+ frame carries has the PAN ID Compression bit set exactly when the
/// representation says so.
pub proof fn law_built_pan_id_compression(
    r: MpduRepr<MpduWithIes>,
    frame_version: FrameVersion,
    frame_type: FrameType,
)
    requires
        frame_type != FrameType::Unknown,
        r.spec_addressing() matches Some(a) && a.spec_dst() != AddressingMode::Unknown
            && a.spec_src() != AddressingMode::Unknown && a.spec_compression()
            != PanIdCompressionRepr::Legacy,
    ensures
        fields_of(repr_fc_raw(r, frame_version, frame_type)).pan_id_compression <==> r.spec_addressing()->0.spec_compression()
            == PanIdCompressionRepr::Yes,
{
    let (dst, src, c) = repr_fc_addressing(r.spec_addressing());
    law_built_frame_control(
        frame_version,
        frame_type,
        r.spec_seq_nr() == SeqNrRepr::No,
        c,
        dst,
        src,
        r.spec_security() is Some,
        false,
    );
}

} // verus!
