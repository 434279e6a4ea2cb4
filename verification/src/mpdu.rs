//! Unparsed MPDUs and the typestates of MPDU representations and parsers.

use core::marker::PhantomData;

use vstd::prelude::*;

use crate::driver::{spec_pdu_length, DriverConfig, RadioFrame, RadioFrameSized};
use crate::frame::{FramePdu, IntoBuffer};
use crate::parser::frame_control::{fields_of, raw_of, FrameControl};
use crate::parser::addressing::splice;

verus! {

/// Typestate: nothing is known of the MPDU.
#[derive(Debug, PartialEq, Eq, Clone, Copy)]
pub struct MpduUnsized;

/// Typestate: the frame control field is known.
#[derive(Debug, PartialEq, Eq, Clone, Copy)]
pub struct MpduWithFrameControl;

/// Typestate: the addressing fields are known.
#[derive(Debug, PartialEq, Eq, Clone, Copy)]
pub struct MpduWithAddressing;

/// Typestate: the security fields are known.
#[derive(Debug, PartialEq, Eq, Clone, Copy)]
pub struct MpduWithSecurity;

/// Typestate: the information elements are known.
#[derive(Debug, PartialEq, Eq, Clone, Copy)]
pub struct MpduWithIes;

/// Typestate: all fields are known.
#[derive(Debug, PartialEq, Eq, Clone, Copy)]
pub struct MpduWithAllFields;

/// Length of the frame control field.
pub const FRAME_CONTROL_LEN: u16 = 2;

/// An unparsed MPDU.
#[derive(Debug)]
pub struct MpduFrame {
    pub(crate) buffer: Vec<u8>,
    /// The buffer offset at which the MPDU starts.
    pub(crate) offset: u16,
    /// The length of the MPDU excluding the FCS.
    pub(crate) length_wo_fcs: u16,
}

impl MpduFrame {
    /// The buffer holding the MPDU.
    pub closed spec fn spec_buffer(self) -> Seq<u8> {
        self.buffer@
    }

    /// The buffer offset at which the MPDU starts.
    pub closed spec fn spec_offset(self) -> u16 {
        self.offset
    }

    /// The length of the MPDU excluding the FCS.
    pub closed spec fn spec_length_wo_fcs(self) -> u16 {
        self.length_wo_fcs
    }

    /// The SDU length of the radio frame holding this MPDU: the MPDU plus
    /// the FCS length, saturating.
    pub open spec fn spec_sdu_length<Config: DriverConfig>(self) -> u16 {
        if self.spec_length_wo_fcs() + Config::spec_fcs_length() <= u16::MAX {
            (self.spec_length_wo_fcs() + Config::spec_fcs_length()) as u16
        } else {
            u16::MAX
        }
    }

    /// The buffer holds the frame control field.
    pub open spec fn has_frame_control(self) -> bool {
        self.spec_offset() + 2 <= self.spec_buffer().len()
    }

    /// The raw frame control field.
    pub open spec fn spec_fc_raw(self) -> u16 {
        raw_of(
            self.spec_buffer()[self.spec_offset() as int],
            self.spec_buffer()[self.spec_offset() + 1],
        )
    }

    /// The sequence number field is suppressed.
    pub open spec fn spec_seq_nr_suppressed(self) -> bool {
        fields_of(self.spec_fc_raw()).sequence_number_suppression
    }

    /// The sequence number, unless suppressed.
    pub open spec fn spec_sequence_number(self) -> Option<u8> {
        if self.spec_seq_nr_suppressed() {
            None
        } else {
            Some(self.spec_buffer()[self.spec_offset() + 2])
        }
    }

    /// An MPDU of the given length (less the FCS) at the given offset of the
    /// buffer.
    pub fn new(buffer: Vec<u8>, offset: u16, length_wo_fcs: u16) -> (m: Self)
        requires
            length_wo_fcs > 0,
        ensures
            m.spec_buffer() == buffer@,
            m.spec_offset() == offset,
            m.spec_length_wo_fcs() == length_wo_fcs,
    {
        MpduFrame { buffer, offset, length_wo_fcs }
    }

    /// Returns the MPDU length of the frame including the FCS if the FCS is
    /// not offloaded to the driver or hardware, otherwise including the FCS
    /// length.
    pub fn pdu_length<Config: DriverConfig>(&self) -> (len: u16)
        requires
            self.spec_length_wo_fcs() + Config::spec_fcs_length() <= u16::MAX,
        ensures
            len == self.spec_length_wo_fcs() + Config::spec_fcs_length(),
    {
        self.length_wo_fcs + Config::fcs_length()
    }

    /// The buffer offset at which the MPDU starts.
    pub fn offset(&self) -> (o: u16)
        ensures
            o == self.spec_offset(),
    {
        self.offset
    }

    /// Calculates the MPDU length of the frame without any FCS.
    pub fn pdu_length_wo_fcs(&self) -> (len: u16)
        ensures
            len == self.spec_length_wo_fcs(),
    {
        self.length_wo_fcs
    }

    /// Produces an unparsed MPDU from a radio frame: the MPDU starts after
    /// the headroom and spans the SDU less the FCS.
    pub fn from_radio_frame<Config: DriverConfig>(radio_frame: RadioFrame<Config, RadioFrameSized>) -> (m: Self)
        requires
            radio_frame.wf(),
        ensures
            m.spec_buffer() == radio_frame.spec_buffer(),
            m.spec_offset() == Config::spec_headroom(),
            m.spec_length_wo_fcs() == radio_frame.spec_repr().spec_sdu_length()
                - Config::spec_fcs_length(),
    {
        let offset = radio_frame.headroom_length();
        let length_wo_fcs = radio_frame.sdu_wo_fcs_length();
        MpduFrame { buffer: radio_frame.into_buffer(), offset, length_wo_fcs }
    }

    /// Converts an MPDU into a radio frame whose SDU is the MPDU plus the
    /// FCS length.
    pub fn into_radio_frame<Config: DriverConfig>(self) -> (f: RadioFrame<Config, RadioFrameSized>)
        requires
            self.spec_offset() == Config::spec_headroom(),
            self.spec_length_wo_fcs() > 0,
            spec_pdu_length(
                Config::spec_headroom(),
                self.spec_sdu_length::<Config>(),
                Config::spec_tailroom(),
            ) <= u16::MAX,
            self.spec_buffer().len() >= spec_pdu_length(
                Config::spec_headroom(),
                self.spec_sdu_length::<Config>(),
                Config::spec_tailroom(),
            ),
        ensures
            f.spec_buffer() == self.spec_buffer(),
            f.spec_repr()@ == Some(self.spec_sdu_length::<Config>()),
            f.wf(),
    {
        proof {
            Config::lemma_config();
        }
        let sdu_length = self.length_wo_fcs.saturating_add(Config::fcs_length());
        RadioFrame::<Config, RadioFrameSized>::new(self.buffer, sdu_length)
    }

    /// Provides read-only access to the [`FrameControl`] field.
    pub fn frame_control(&self) -> (fc: FrameControl)
        requires
            self.has_frame_control(),
        ensures
            fc.wf(),
            fc.raw() == self.spec_fc_raw(),
    {
        let o = self.offset as usize;
        let bytes = [self.buffer[o], self.buffer[o + 1]];
        FrameControl::new_unchecked(bytes.as_slice())
    }

    /// Writes the frame control field.
    pub fn write_frame_control(&mut self, fc: &FrameControl)
        requires
            old(self).has_frame_control(),
            fc.wf(),
        ensures
            final(self).spec_buffer() == old(self).spec_buffer().update(
                old(self).spec_offset() as int,
                fc@[0],
            ).update(old(self).spec_offset() + 1, fc@[1]),
            final(self).spec_fc_raw() == fc.raw(),
            final(self).spec_offset() == old(self).spec_offset(),
            final(self).spec_length_wo_fcs() == old(self).spec_length_wo_fcs(),
    {
        let o = self.offset as usize;
        let bytes = fc.as_bytes();
        self.buffer.set(o, bytes[0]);
        self.buffer.set(o + 1, bytes[1]);
    }

    /// Reads the sequence number field, unless suppressed.
    pub fn sequence_number(&self) -> (n: Option<u8>)
        requires
            self.has_frame_control(),
            !self.spec_seq_nr_suppressed() ==> self.spec_offset() + 2 < self.spec_buffer().len(),
        ensures
            n == self.spec_sequence_number(),
    {
        if self.frame_control().sequence_number_suppression() {
            return None;
        }
        Some(self.buffer[self.offset as usize + 2])
    }

    /// Writes the sequence number field, which must not be suppressed.
    pub fn set_sequence_number(&mut self, seq_num: u8)
        requires
            old(self).has_frame_control(),
            !old(self).spec_seq_nr_suppressed(),
            old(self).spec_offset() + 2 < old(self).spec_buffer().len(),
        ensures
            final(self).spec_buffer() == old(self).spec_buffer().update(
                old(self).spec_offset() + 2,
                seq_num,
            ),
            final(self).spec_offset() == old(self).spec_offset(),
            final(self).spec_length_wo_fcs() == old(self).spec_length_wo_fcs(),
            final(self).spec_sequence_number() == Some(seq_num),
    {
        self.buffer.set(self.offset as usize + 2, seq_num);
    }

    /// Overwrites the buffer from `start` on with the given octets.
    pub(crate) fn write_bytes(&mut self, start: usize, src: &[u8])
        requires
            start + src@.len() <= old(self).spec_buffer().len(),
        ensures
            final(self).spec_buffer() == splice(old(self).spec_buffer(), start as int, src@),
            final(self).spec_offset() == old(self).spec_offset(),
            final(self).spec_length_wo_fcs() == old(self).spec_length_wo_fcs(),
    {
        let len = self.buffer.len();
        let mut j: usize = 0;
        while j < src.len()
            invariant
                start + src@.len() <= old(self).spec_buffer().len(),
                j <= src@.len(),
                self.buffer@.len() == old(self).buffer@.len(),
                len == self.buffer@.len(),
                self.offset == old(self).offset,
                self.length_wo_fcs == old(self).length_wo_fcs,
                forall|k: int|
                    0 <= k < self.buffer@.len() ==> #[trigger] self.buffer@[k] == if start <= k < start
                        + j {
                        src@[k - start]
                    } else {
                        old(self).buffer@[k]
                    },
            decreases src@.len() - j,
        {
            assert(start + j < self.buffer@.len());
            let at = start + j;
            self.buffer.set(at, src[j]);
            j = j + 1;
        }
        assert(self.buffer@ =~= splice(old(self).buffer@, start as int, src@));
    }

    /// Overwrites the MPDU without its FCS with the given octets, which must
    /// have its length; the rest of the buffer keeps its octets.
    pub fn set_pdu_wo_fcs(&mut self, pdu: &[u8])
        requires
            pdu@.len() == old(self).spec_length_wo_fcs(),
            old(self).spec_offset() + old(self).spec_length_wo_fcs() <= old(self).spec_buffer().len(),
        ensures
            final(self).spec_buffer() == splice(
                old(self).spec_buffer(),
                old(self).spec_offset() as int,
                pdu@,
            ),
            final(self).spec_offset() == old(self).spec_offset(),
            final(self).spec_length_wo_fcs() == old(self).spec_length_wo_fcs(),
    {
        self.write_bytes(self.offset as usize, pdu);
    }

    /// The buffer holding the MPDU.
    pub fn as_bytes(&self) -> (b: &[u8])
        ensures
            b@ == self.spec_buffer(),
    {
        self.buffer.as_slice()
    }
}

impl IntoBuffer for MpduFrame {
    fn into_buffer(self) -> (b: Vec<u8>)
        ensures
            b@ == self.spec_buffer(),
    {
        self.buffer
    }
}

impl FramePdu for MpduFrame {
    type Pdu = Self;

    fn pdu_ref(&self) -> (p: &Self)
        ensures
            *p == *self,
    {
        self
    }
}

} // verus!
