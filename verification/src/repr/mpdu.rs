//! MPDU representation: just enough structural information to calculate the
//! size of an MPDU buffer, built up in typestates frame control, addressing,
//! security and information elements.

use core::marker::PhantomData;

use vstd::prelude::*;

use crate::mpdu::{
    MpduUnsized, MpduWithAddressing, MpduWithFrameControl, MpduWithIes, MpduWithSecurity,
    FRAME_CONTROL_LEN,
};
use crate::repr::addressing::AddressingRepr;
use crate::repr::security::SecurityRepr;
use crate::repr::seq_nr::SeqNrRepr;
use crate::Error;

verus! {

/// The MPDU representation; it refers to no driver configuration so that it
/// can be re-used across drivers.
#[derive(Debug)]
pub struct MpduRepr<State> {
    pub(crate) seq_nr: SeqNrRepr,
    pub(crate) addressing: Option<AddressingRepr>,
    pub(crate) security: Option<SecurityRepr>,
    pub(crate) state: PhantomData<State>,
}

impl<State> Clone for MpduRepr<State> {
    fn clone(&self) -> (r: Self)
        ensures
            r == *self,
    {
        MpduRepr {
            seq_nr: self.seq_nr,
            addressing: self.addressing,
            security: self.security,
            state: PhantomData,
        }
    }
}

impl<State> Copy for MpduRepr<State> {
}

/// Length of the security fields: auxiliary security header and MIC.
pub open spec fn security_length(security: Option<SecurityRepr>) -> int {
    match security {
        Some(s) => s.spec_aux_sec_header_length() + s.security_level.spec_mic_length(),
        None => 0,
    }
}

impl<State> MpduRepr<State> {
    /// Whether a sequence number is present.
    pub closed spec fn spec_seq_nr(self) -> SeqNrRepr {
        self.seq_nr
    }

    /// The addressing representation, if addressed.
    pub closed spec fn spec_addressing(self) -> Option<AddressingRepr> {
        self.addressing
    }

    /// The security representation, if secured.
    pub closed spec fn spec_security(self) -> Option<SecurityRepr> {
        self.security
    }

    /// Whether a sequence number is present.
    pub fn seq_nr(&self) -> (s: SeqNrRepr)
        ensures
            s == self.spec_seq_nr(),
    {
        self.seq_nr
    }

    /// The addressing representation, if addressed.
    pub fn addressing(&self) -> (a: Option<AddressingRepr>)
        ensures
            a == self.spec_addressing(),
    {
        self.addressing
    }

    /// The security representation, if secured.
    pub fn security(&self) -> (s: Option<SecurityRepr>)
        ensures
            s == self.spec_security(),
    {
        self.security
    }

    /// The MPDU length less IEs, frame payload and FCS, i.e. frame control,
    /// sequence number, addressing fields, auxiliary security header and MIC;
    /// `None` where the addressing is invalid.
    pub open spec fn spec_less_ies_and_payload(self) -> Option<int> {
        let base = FRAME_CONTROL_LEN + self.spec_seq_nr().spec_length() + security_length(
            self.spec_security(),
        );
        match self.spec_addressing() {
            None => Some(base),
            Some(a) => match a.fields_length() {
                Some(n) => Some(base + n),
                None => None,
            },
        }
    }
}

impl MpduRepr<MpduUnsized> {
    /// An empty representation.
    pub fn new() -> (r: Self)
        ensures
            r.spec_seq_nr() == SeqNrRepr::No,
            r.spec_addressing() is None,
            r.spec_security() is None,
    {
        MpduRepr { seq_nr: SeqNrRepr::No, addressing: None, security: None, state: PhantomData }
    }

    /// Sets the frame control configuration: whether a sequence number is
    /// present.
    pub fn with_frame_control(self, seq_nr: SeqNrRepr) -> (r: MpduRepr<MpduWithFrameControl>)
        ensures
            r.spec_seq_nr() == seq_nr,
            r.spec_addressing() is None,
            r.spec_security() == self.spec_security(),
    {
        MpduRepr { seq_nr, addressing: None, security: self.security, state: PhantomData }
    }
}

impl MpduRepr<MpduWithFrameControl> {
    /// Sets the addressing configuration.
    pub fn with_addressing(self, addressing: AddressingRepr) -> (r: MpduRepr<MpduWithAddressing>)
        ensures
            r.spec_seq_nr() == self.spec_seq_nr(),
            r.spec_addressing() == Some(addressing),
            r.spec_security() == self.spec_security(),
    {
        MpduRepr {
            seq_nr: self.seq_nr,
            addressing: Some(addressing),
            security: self.security,
            state: PhantomData,
        }
    }

    /// Leaves the frame unaddressed.
    pub fn without_addressing(self) -> (r: MpduRepr<MpduWithAddressing>)
        ensures
            r.spec_seq_nr() == self.spec_seq_nr(),
            r.spec_addressing() is None,
            r.spec_security() is None,
    {
        MpduRepr { seq_nr: self.seq_nr, addressing: None, security: None, state: PhantomData }
    }
}

impl MpduRepr<MpduWithAddressing> {
    /// Sets the security configuration.
    pub fn with_security(self, security: SecurityRepr) -> (r: MpduRepr<MpduWithSecurity>)
        ensures
            r.spec_seq_nr() == self.spec_seq_nr(),
            r.spec_addressing() == self.spec_addressing(),
            r.spec_security() == Some(security),
    {
        MpduRepr {
            seq_nr: self.seq_nr,
            addressing: self.addressing,
            security: Some(security),
            state: PhantomData,
        }
    }

    /// Leaves the frame unsecured.
    pub fn without_security(self) -> (r: MpduRepr<MpduWithSecurity>)
        ensures
            r.spec_seq_nr() == self.spec_seq_nr(),
            r.spec_addressing() == self.spec_addressing(),
            r.spec_security() is None,
    {
        MpduRepr {
            seq_nr: self.seq_nr,
            addressing: self.addressing,
            security: None,
            state: PhantomData,
        }
    }
}

impl MpduRepr<MpduWithSecurity> {
    /// Leaves the frame without information elements.
    pub fn without_ies(self) -> (r: MpduRepr<MpduWithIes>)
        ensures
            r.spec_seq_nr() == self.spec_seq_nr(),
            r.spec_addressing() == self.spec_addressing(),
            r.spec_security() == self.spec_security(),
    {
        MpduRepr {
            seq_nr: self.seq_nr,
            addressing: self.addressing,
            security: self.security,
            state: PhantomData,
        }
    }
}

impl MpduRepr<MpduWithIes> {
    /// Calculate the MPDU length less the FCS length given the frame payload
    /// length.
    ///
    /// This is convenient when building outgoing frames from scratch. Fails
    /// where the addressing is invalid.
    pub fn mpdu_length_wo_fcs(&self, frame_payload_length: u16) -> (res: Result<u16, Error>)
        requires
            self.spec_less_ies_and_payload() matches Some(n) ==> n + frame_payload_length
                <= u16::MAX,
        ensures
            match self.spec_less_ies_and_payload() {
                Some(n) => res == Ok::<u16, Error>((n + frame_payload_length) as u16),
                None => res is Err,
            },
            res matches Ok(len) ==> len > 0,
    {
        let len = self.mpdu_less_ies_and_payload_length()?;
        Ok(len + frame_payload_length)
    }

    /// Calculate the IEs and frame payload length given the MPDU length.
    ///
    /// This is convenient when parsing incoming frames. Fails where the
    /// addressing is invalid or the MPDU is too short for its header.
    pub fn ies_and_frame_payload_length(&self, mpdu_length_wo_fcs: u16) -> (res: Result<(u16, u16), Error>)
        ensures
            match self.spec_less_ies_and_payload() {
                Some(n) => if n <= mpdu_length_wo_fcs {
                    res == Ok::<(u16, u16), Error>((0, (mpdu_length_wo_fcs - n) as u16))
                } else {
                    res is Err
                },
                None => res is Err,
            },
    {
        let less = self.mpdu_less_ies_and_payload_length()?;
        if less > mpdu_length_wo_fcs {
            return Err(Error);
        }
        Ok((0, mpdu_length_wo_fcs - less))
    }

    /// The MPDU length less IEs, frame payload and FCS.
    pub(crate) fn mpdu_less_ies_and_payload_length(&self) -> (res: Result<u16, Error>)
        ensures
            match self.spec_less_ies_and_payload() {
                Some(n) => res == Ok::<u16, Error>(n as u16) && 0 < n <= 200,
                None => res is Err,
            },
    {
        let mut len: u16 = FRAME_CONTROL_LEN + self.seq_nr.length();
        match &self.addressing {
            Some(addressing) => {
                let n = addressing.addressing_fields_length()?;
                len = len + n;
            },
            None => {},
        }
        match &self.security {
            Some(security) => {
                len = len + security.aux_sec_header_length() + security.mic_length();
            },
            None => {},
        }
        Ok(len)
    }
}

/// An empty MPDU representation.
pub fn mpdu_repr() -> (r: MpduRepr<MpduUnsized>)
    ensures
        r.spec_seq_nr() == SeqNrRepr::No,
        r.spec_addressing() is None,
        r.spec_security() is None,
{
    MpduRepr::new()
}

} // verus!
