//! Radio frames: a buffer with driver headroom, the PSDU (= MPDU) and driver
//! tailroom, laid out according to a driver configuration.

use core::marker::PhantomData;

use vstd::prelude::*;

verus! {

/// Largest PHY packet of all PHYs but SUN, TVWS, RCC, LECIM FSK and MSK.
pub const MAX_PHY_PACKET_SIZE_127: u16 = 127;

/// Largest PHY packet of SUN, TVWS, RCC, LECIM FSK and MSK PHYs at 2000 kb/s.
pub const MAX_PHY_PACKET_SIZE_2047: u16 = 2048;

/// Buffer layout that a radio driver needs.
pub trait DriverConfig {
    /// Any buffer headroom required by the driver.
    spec fn spec_headroom() -> u16;

    /// Any buffer tailroom required by the driver. Where the driver handles
    /// the FCS, the tailroom may include room for the hardware to add it.
    spec fn spec_tailroom() -> u16;

    /// aMaxPhyPacketSize if the FCS is handled by the MAC, otherwise
    /// aMaxPhyPacketSize minus FCS size.
    spec fn spec_max_frame_length() -> u16;

    /// Length of the FCS that the MAC includes in the frame: 2 or 4 octets,
    /// or 0 where the driver or hardware handles the FCS.
    spec fn spec_fcs_length() -> u16;

    /// Any buffer headroom required by the driver.
    fn headroom() -> (r: u16)
        ensures
            r == Self::spec_headroom(),
    ;

    /// Any buffer tailroom required by the driver.
    fn tailroom() -> (r: u16)
        ensures
            r == Self::spec_tailroom(),
    ;

    /// Maximum frame length.
    fn max_frame_length() -> (r: u16)
        ensures
            r == Self::spec_max_frame_length(),
    ;

    /// Length of the FCS that the MAC includes in the frame.
    fn fcs_length() -> (r: u16)
        ensures
            r == Self::spec_fcs_length(),
    ;

    /// The FCS has one of the allowed lengths and a buffer for the largest
    /// frame fits 16 bits.
    proof fn lemma_config()
        ensures
            Self::spec_fcs_length() == 0 || Self::spec_fcs_length() == 2 || Self::spec_fcs_length()
                == 4,
            Self::spec_headroom() + Self::spec_max_frame_length() + Self::spec_tailroom()
                <= u16::MAX,
    ;
}

/// A radio frame whose PSDU length is not yet known.
#[derive(Clone, Copy, Debug)]
pub struct RadioFrameUnsized;

/// A radio frame whose PSDU length is known.
#[derive(Clone, Copy, Debug)]
pub struct RadioFrameSized;

/// Layout of a radio frame buffer.
#[derive(Debug)]
pub struct RadioFrameRepr<Config: DriverConfig, State> {
    config: PhantomData<Config>,
    /// `None` for an unsized frame, the SDU length for a sized frame.
    ///
    /// The SDU length is the length of the PSDU (= MPDU) including the FCS
    /// unless the driver or hardware handles it. It exceeds the FCS length.
    sdu_length: Option<u16>,
    state: PhantomData<State>,
}

impl<Config: DriverConfig, State> Clone for RadioFrameRepr<Config, State> {
    fn clone(&self) -> (r: Self)
        ensures
            r == *self,
    {
        RadioFrameRepr { config: PhantomData, sdu_length: self.sdu_length, state: PhantomData }
    }
}

impl<Config: DriverConfig, State> Copy for RadioFrameRepr<Config, State> {
}

impl<Config: DriverConfig, State> View for RadioFrameRepr<Config, State> {
    type V = Option<u16>;

    closed spec fn view(&self) -> Option<u16> {
        self.sdu_length
    }
}

impl<Config: DriverConfig, State> RadioFrameRepr<Config, State> {
    /// Any buffer headroom required by the driver.
    pub fn headroom_length(&self) -> (len: u16)
        ensures
            len == Config::spec_headroom(),
    {
        Config::headroom()
    }

    /// Any buffer tailroom required by the driver.
    pub fn tailroom_length(&self) -> (len: u16)
        ensures
            len == Config::spec_tailroom(),
    {
        Config::tailroom()
    }

    /// Headroom and tailroom together.
    pub fn driver_overhead(&self) -> (len: u16)
        ensures
            len == Config::spec_headroom() + Config::spec_tailroom(),
    {
        proof {
            Config::lemma_config();
        }
        self.headroom_length() + self.tailroom_length()
    }

    /// The buffer length a frame of any size needs.
    pub fn max_buffer_length(&self) -> (len: u16)
        ensures
            len == Config::spec_max_frame_length(),
    {
        Config::max_frame_length()
    }

    /// Length of the FCS that the MAC includes in the frame.
    pub fn fcs_length(&self) -> (len: u16)
        ensures
            len == Config::spec_fcs_length(),
    {
        Config::fcs_length()
    }
}

impl<Config: DriverConfig> RadioFrameRepr<Config, RadioFrameUnsized> {
    /// An unsized frame layout.
    pub fn new() -> (r: Self)
        ensures
            r@ is None,
    {
        RadioFrameRepr { config: PhantomData, sdu_length: None, state: PhantomData }
    }

    /// A sized frame layout with the given SDU length.
    pub fn with_sdu(sdu_length: u16) -> (r: RadioFrameRepr<Config, RadioFrameSized>)
        requires
            sdu_length > Config::spec_fcs_length(),
            spec_pdu_length(Config::spec_headroom(), sdu_length, Config::spec_tailroom())
                <= u16::MAX,
        ensures
            r@ == Some(sdu_length),
    {
        RadioFrameRepr::<Config, RadioFrameSized>::new(sdu_length)
    }
}

/// The PDU (buffer) length of a sized frame.
pub open spec fn spec_pdu_length(headroom: u16, sdu_length: u16, tailroom: u16) -> int {
    headroom + sdu_length + tailroom
}

impl<Config: DriverConfig> RadioFrameRepr<Config, RadioFrameSized> {
    /// The SDU length of a sized frame.
    pub open spec fn spec_sdu_length(self) -> u16 {
        self@->0
    }

    /// A sized frame has an SDU length that exceeds the FCS length and a
    /// PDU length that fits 16 bits.
    pub open spec fn wf(self) -> bool {
        &&& self@ is Some
        &&& self.spec_sdu_length() > Config::spec_fcs_length()
        &&& spec_pdu_length(Config::spec_headroom(), self.spec_sdu_length(), Config::spec_tailroom())
            <= u16::MAX
    }

    /// A sized frame layout with the given SDU length, which must exceed the
    /// FCS length.
    pub fn new(sdu_length: u16) -> (r: Self)
        requires
            sdu_length > Config::spec_fcs_length(),
            spec_pdu_length(Config::spec_headroom(), sdu_length, Config::spec_tailroom())
                <= u16::MAX,
        ensures
            r@ == Some(sdu_length),
            r.wf(),
    {
        RadioFrameRepr { config: PhantomData, sdu_length: Some(sdu_length), state: PhantomData }
    }

    /// The SDU starts after the headroom.
    pub fn offset_sdu(&self) -> (o: u16)
        ensures
            o == Config::spec_headroom(),
    {
        self.headroom_length()
    }

    /// The tailroom starts after the SDU.
    pub fn offset_tailroom(&self) -> (o: u16)
        requires
            self.wf(),
        ensures
            o == Config::spec_headroom() + self.spec_sdu_length(),
    {
        self.sdu_length() + self.offset_sdu()
    }

    /// The buffer length of the frame.
    pub fn pdu_length(&self) -> (len: u16)
        requires
            self.wf(),
        ensures
            len == spec_pdu_length(
                Config::spec_headroom(),
                self.spec_sdu_length(),
                Config::spec_tailroom(),
            ),
    {
        self.offset_tailroom() + self.tailroom_length()
    }

    /// Range of the headroom.
    pub fn headroom_range(&self) -> (r: core::ops::Range<u16>)
        ensures
            r.start == 0,
            r.end == Config::spec_headroom(),
    {
        0..self.offset_sdu()
    }

    /// Range of the tailroom.
    pub fn tailroom_range(&self) -> (r: core::ops::Range<usize>)
        requires
            self.wf(),
        ensures
            r.start == Config::spec_headroom() + self.spec_sdu_length(),
            r.end == r.start + Config::spec_tailroom(),
    {
        self.offset_tailroom() as usize..self.pdu_length() as usize
    }

    /// Range of the SDU.
    pub fn sdu_range(&self) -> (r: core::ops::Range<usize>)
        requires
            self.wf(),
        ensures
            r.start == Config::spec_headroom(),
            r.end == r.start + self.spec_sdu_length(),
    {
        self.offset_sdu() as usize..self.offset_tailroom() as usize
    }

    /// Range of the whole PDU.
    pub fn pdu_range(&self) -> (r: core::ops::Range<usize>)
        requires
            self.wf(),
        ensures
            r.start == 0,
            r.end == spec_pdu_length(
                Config::spec_headroom(),
                self.spec_sdu_length(),
                Config::spec_tailroom(),
            ),
    {
        0..self.pdu_length() as usize
    }

    /// Returns the PSDU (= MPDU) length of the frame, including the FCS
    /// unless the driver or hardware handles it.
    pub fn sdu_length(&self) -> (len: u16)
        requires
            self.wf(),
        ensures
            len == self.spec_sdu_length(),
    {
        match self.sdu_length {
            Some(len) => len,
            None => unreached(),
        }
    }

    /// The PSDU (= MPDU) length of the frame without any FCS; independent
    /// of the driver configuration.
    pub fn sdu_wo_fcs_length(&self) -> (len: u16)
        requires
            self.wf(),
        ensures
            len == self.spec_sdu_length() - Config::spec_fcs_length(),
            len > 0,
    {
        self.sdu_length() - self.fcs_length()
    }
}

/// A radio frame with a buffer allocated outside the driver.
///
/// A sized frame's buffer holds at least [`RadioFrameRepr::pdu_length`]
/// octets, an unsized frame's at least [`RadioFrameRepr::max_buffer_length`].
#[derive(Debug)]
pub struct RadioFrame<Config: DriverConfig, State> {
    repr: RadioFrameRepr<Config, State>,
    buffer: Vec<u8>,
}

impl<Config: DriverConfig, State> RadioFrame<Config, State> {
    /// An unsized frame's buffer holds a frame of any size; a sized frame
    /// has a valid layout and a buffer that holds it.
    #[verifier::type_invariant]
    closed spec fn inv(self) -> bool {
        match self.repr@ {
            None => self.buffer@.len() >= Config::spec_max_frame_length(),
            Some(sdu) => {
                &&& sdu > Config::spec_fcs_length()
                &&& spec_pdu_length(Config::spec_headroom(), sdu, Config::spec_tailroom())
                    <= u16::MAX
                &&& self.buffer@.len() >= spec_pdu_length(
                    Config::spec_headroom(),
                    sdu,
                    Config::spec_tailroom(),
                )
            },
        }
    }

    /// The layout of the frame.
    pub closed spec fn spec_repr(self) -> RadioFrameRepr<Config, State> {
        self.repr
    }

    /// The buffer of the frame.
    pub closed spec fn spec_buffer(self) -> Seq<u8> {
        self.buffer@
    }

    /// Any buffer headroom required by the driver.
    pub fn headroom_length(&self) -> (len: u16)
        ensures
            len == Config::spec_headroom(),
    {
        self.repr.headroom_length()
    }

}

impl<Config: DriverConfig> RadioFrame<Config, RadioFrameUnsized> {
    /// An unsized frame over the given buffer, which must hold a frame of
    /// any size.
    pub fn new(buffer: Vec<u8>) -> (f: Self)
        requires
            buffer@.len() >= Config::spec_max_frame_length(),
        ensures
            f.spec_buffer() == buffer@,
    {
        RadioFrame { repr: RadioFrameRepr::<Config, RadioFrameUnsized>::new(), buffer }
    }

    /// The frame sized to the given SDU length.
    pub fn with_size(self, sdu_length: u16) -> (f: RadioFrame<Config, RadioFrameSized>)
        requires
            sdu_length > Config::spec_fcs_length(),
            spec_pdu_length(Config::spec_headroom(), sdu_length, Config::spec_tailroom())
                <= u16::MAX,
            self.spec_buffer().len() >= spec_pdu_length(
                Config::spec_headroom(),
                sdu_length,
                Config::spec_tailroom(),
            ),
        ensures
            f.spec_buffer() == self.spec_buffer(),
            f.spec_repr()@ == Some(sdu_length),
            f.wf(),
    {
        RadioFrame::<Config, RadioFrameSized>::new(self.buffer, sdu_length)
    }
}

impl<Config: DriverConfig> RadioFrame<Config, RadioFrameSized> {
    /// A sized frame has a valid layout and a buffer that holds it.
    pub open spec fn wf(self) -> bool {
        &&& self.spec_repr().wf()
        &&& self.spec_buffer().len() >= spec_pdu_length(
            Config::spec_headroom(),
            self.spec_repr().spec_sdu_length(),
            Config::spec_tailroom(),
        )
    }

    /// A sized frame over the given buffer, which must hold the frame.
    pub fn new(buffer: Vec<u8>, sdu_length: u16) -> (f: Self)
        requires
            sdu_length > Config::spec_fcs_length(),
            spec_pdu_length(Config::spec_headroom(), sdu_length, Config::spec_tailroom())
                <= u16::MAX,
            buffer@.len() >= spec_pdu_length(
                Config::spec_headroom(),
                sdu_length,
                Config::spec_tailroom(),
            ),
        ensures
            f.spec_buffer() == buffer@,
            f.spec_repr()@ == Some(sdu_length),
            f.wf(),
    {
        RadioFrame { repr: RadioFrameRepr::<Config, RadioFrameSized>::new(sdu_length), buffer }
    }

    /// The PSDU (= MPDU) length, including the FCS unless the driver
    /// handles it.
    pub fn sdu_length(&self) -> (len: u16)
        requires
            self.wf(),
        ensures
            len == self.spec_repr().spec_sdu_length(),
    {
        self.repr.sdu_length()
    }

    /// The PSDU (= MPDU) length without any FCS.
    pub fn sdu_wo_fcs_length(&self) -> (len: u16)
        requires
            self.wf(),
        ensures
            len == self.spec_repr().spec_sdu_length() - Config::spec_fcs_length(),
            len > 0,
    {
        self.repr.sdu_wo_fcs_length()
    }

    /// The frame's PDU: headroom, SDU and tailroom.
    pub fn pdu_ref(&self) -> (pdu: &[u8])
        requires
            self.wf(),
        ensures
            pdu@ == self.spec_buffer().subrange(
                0,
                spec_pdu_length(
                    Config::spec_headroom(),
                    self.spec_repr().spec_sdu_length(),
                    Config::spec_tailroom(),
                ),
            ),
    {
        let range = self.repr.pdu_range();
        &self.buffer.as_slice()[range]
    }

    /// The frame's SDU.
    pub fn sdu_ref(&self) -> (sdu: &[u8])
        requires
            self.wf(),
        ensures
            sdu@ == self.spec_buffer().subrange(
                Config::spec_headroom() as int,
                Config::spec_headroom() + self.spec_repr().spec_sdu_length(),
            ),
    {
        let range = self.repr.sdu_range();
        &self.buffer.as_slice()[range]
    }
}

impl<Config: DriverConfig, State> crate::frame::IntoBuffer for RadioFrame<Config, State> {
    fn into_buffer(self) -> (b: Vec<u8>)
        ensures
            b@ == self.spec_buffer(),
    {
        self.buffer
    }
}

impl<Config: DriverConfig> crate::frame::FramePdu for RadioFrame<Config, RadioFrameSized> {
    type Pdu = [u8];

    /// The frame's PDU: headroom, SDU and tailroom.
    fn pdu_ref(&self) -> (pdu: &[u8])
        ensures
            self.spec_repr()@ matches Some(sdu) ==> pdu@ == self.spec_buffer().subrange(
                0,
                spec_pdu_length(Config::spec_headroom(), sdu, Config::spec_tailroom()),
            ),
    {
        proof {
            use_type_invariant(self);
        }
        match self.repr.sdu_length {
            Some(_) => self.pdu_ref(),
            None => self.buffer.as_slice(),
        }
    }
}

impl<Config: DriverConfig> crate::frame::Frame for RadioFrame<Config, RadioFrameSized> {
    /// The frame's SDU.
    fn sdu_ref(&self) -> (sdu: &[u8])
        ensures
            self.spec_repr()@ matches Some(n) ==> sdu@ == self.spec_buffer().subrange(
                Config::spec_headroom() as int,
                Config::spec_headroom() + n,
            ),
    {
        proof {
            use_type_invariant(self);
        }
        match self.repr.sdu_length {
            Some(_) => self.sdu_ref(),
            None => self.buffer.as_slice(),
        }
    }
}

} // verus!
