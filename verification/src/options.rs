//! Session option records: behaviour flags, timing, padding and
//! extended-addressing bytes, flow-control parameters and link-layer
//! parameters. All numeric fields fit their wire-format width; a
//! transmission time that does not fit a 32-bit nanosecond count is a
//! construction error, never a silent truncation.

use vstd::prelude::*;

verus! {

/// Nanoseconds in one second.
pub const NANOS_PER_SEC: u32 = 1_000_000_000;

/// listen only (do not send FC)
pub const CAN_ISOTP_LISTEN_MODE: u32 = 0x001;
/// enable extended addressing
pub const CAN_ISOTP_EXTEND_ADDR: u32 = 0x002;
/// enable CAN frame padding tx path
pub const CAN_ISOTP_TX_PADDING: u32 = 0x004;
/// enable CAN frame padding rx path
pub const CAN_ISOTP_RX_PADDING: u32 = 0x008;
/// check received CAN frame padding length
pub const CAN_ISOTP_CHK_PAD_LEN: u32 = 0x010;
/// check received CAN frame padding content
pub const CAN_ISOTP_CHK_PAD_DATA: u32 = 0x020;
/// half duplex error state handling
pub const CAN_ISOTP_HALF_DUPLEX: u32 = 0x040;
/// ignore stmin from received FC
pub const CAN_ISOTP_FORCE_TXSTMIN: u32 = 0x080;
/// ignore CFs depending on rx stmin
pub const CAN_ISOTP_FORCE_RXSTMIN: u32 = 0x100;
/// different rx extended addressing
pub const CAN_ISOTP_RX_EXT_ADDR: u32 = 0x200;

/// All bits that name a defined ISO-TP behaviour.
pub const ISOTP_BEHAVIOUR_MASK: u32 = 0x3FF;

/// True when `bit` is set in `flags`.
pub open spec fn flag_set(flags: u32, bit: u32) -> bool {
    flags & bit != 0
}

/// A span of time, held as whole seconds plus a sub-second nanosecond
/// remainder. Its view is the total length in nanoseconds.
#[derive(PartialEq, Eq, Structural, Clone, Copy, Debug)]
pub struct Duration {
    secs: u64,
    nanos: u32,
}

impl View for Duration {
    type V = int;

    closed spec fn view(&self) -> int {
        self.secs * (NANOS_PER_SEC as int) + self.nanos
    }
}

impl Duration {
    /// Build a duration from whole seconds and a nanosecond remainder.
    pub fn new(secs: u64, nanos: u32) -> (d: Duration)
        requires
            nanos < NANOS_PER_SEC,
        ensures
            d@ == secs * (NANOS_PER_SEC as int) + nanos,
    {
        Duration { secs, nanos }
    }

    /// Build a duration from a nanosecond count.
    pub fn from_nanos(nanos: u64) -> (d: Duration)
        ensures
            d@ == nanos,
    {
        proof {
            vstd::arithmetic::div_mod::lemma_fundamental_div_mod(
                nanos as int,
                NANOS_PER_SEC as int,
            );
        }
        Duration { secs: nanos / (NANOS_PER_SEC as u64), nanos: (nanos % (NANOS_PER_SEC as u64)) as u32 }
    }

    /// Total length in nanoseconds.
    pub fn as_nanos(&self) -> (n: u128)
        ensures
            n == self@,
    {
        let s: u128 = self.secs as u128;
        proof {
            assert(s * (NANOS_PER_SEC as u128) <= 0xffff_ffff_ffff_ffffu128 * 1_000_000_000)
                by (nonlinear_arith)
                requires
                    s <= 0xffff_ffff_ffff_ffffu128,
            ;
        }
        s * (NANOS_PER_SEC as u128) + (self.nanos as u128)
    }
}

/// The set of ISO-TP behaviour flags, a closed bitset over the
/// `CAN_ISOTP_*` bits. Its view is the raw 32-bit flag word.
#[derive(PartialEq, Eq, Structural, Clone, Copy, Debug)]
pub struct IsoTpBehaviour {
    bits: u32,
}

impl View for IsoTpBehaviour {
    type V = u32;

    closed spec fn view(&self) -> u32 {
        self.bits
    }
}

impl IsoTpBehaviour {
    /// The empty flag set.
    pub fn empty() -> (r: IsoTpBehaviour)
        ensures
            r@ == 0u32,
    {
        IsoTpBehaviour { bits: 0 }
    }

    /// Accept a raw flag word; only words made of defined bits are valid.
    pub fn from_bits(bits: u32) -> (r: Option<IsoTpBehaviour>)
        ensures
            r is Some <==> bits & ISOTP_BEHAVIOUR_MASK == bits,
            r matches Some(b) ==> b@ == bits,
    {
        if bits & ISOTP_BEHAVIOUR_MASK == bits {
            Some(IsoTpBehaviour { bits })
        } else {
            None
        }
    }

    /// The raw flag word.
    pub fn bits(&self) -> (r: u32)
        ensures
            r == self@,
    {
        self.bits
    }

    /// True when every bit of `other` is also set in `self`.
    pub fn contains(&self, other: IsoTpBehaviour) -> (r: bool)
        ensures
            r == (self@ & other@ == other@),
    {
        self.bits & other.bits == other.bits
    }

    /// The flag set holding the bits of both operands.
    pub fn union(&self, other: IsoTpBehaviour) -> (r: IsoTpBehaviour)
        ensures
            r@ == self@ | other@,
    {
        IsoTpBehaviour { bits: self.bits | other.bits }
    }
}

/// `CAN_MAX_DLEN` according to ISO 11898-1: payload bytes in a classic
/// CAN frame.
pub const CAN_MAX_DLEN: u8 = 8;

/// Size of a classic CAN frame structure, the default link-layer MTU.
pub const SIZE_OF_CAN_FRAME: u8 = 16;

/// bit rate switch (second bitrate for payload data)
pub const CANFD_BRS: u8 = 0x01;
/// error state indicator of the transmitting node
pub const CANFD_ESI: u8 = 0x02;

/// All bits that name a defined CAN-FD transmit flag.
pub const TX_FLAGS_MASK: u8 = 0x03;

/// The set of CAN-FD transmit flags, a closed bitset over the `CANFD_*`
/// bits. Its view is the raw 8-bit flag word.
#[derive(PartialEq, Eq, Structural, Clone, Copy, Debug)]
pub struct TxFlags {
    bits: u8,
}

impl View for TxFlags {
    type V = u8;

    closed spec fn view(&self) -> u8 {
        self.bits
    }
}

impl TxFlags {
    /// The empty flag set.
    pub fn empty() -> (r: TxFlags)
        ensures
            r@ == 0u8,
    {
        TxFlags { bits: 0 }
    }

    /// Accept a raw flag word; only words made of defined bits are valid.
    pub fn from_bits(bits: u8) -> (r: Option<TxFlags>)
        ensures
            r is Some <==> bits & TX_FLAGS_MASK == bits,
            r matches Some(b) ==> b@ == bits,
    {
        if bits & TX_FLAGS_MASK == bits {
            Some(TxFlags { bits })
        } else {
            None
        }
    }

    /// The raw flag word.
    pub fn bits(&self) -> (r: u8)
        ensures
            r == self@,
    {
        self.bits
    }
}

/// The fields of `IsoTpOptions`, as plain values.
pub struct IsoTpOptionsV {
    pub flags: u32,
    pub frame_txtime: u32,
    pub ext_address: u8,
    pub txpad_content: u8,
    pub rxpad_content: u8,
    pub rx_ext_address: u8,
}

/// ISO-TP options aka `can_isotp_options`: behaviour flags, frame
/// transmission time in nanoseconds, extended-addressing bytes and
/// padding contents.
pub struct IsoTpOptions {
    /// flags for isotp behaviour
    flags: u32,
    /// frame transmission time (N_As/N_Ar), in nanoseconds
    frame_txtime: u32,
    /// address for extended addressing
    ext_address: u8,
    /// content of padding byte (tx)
    txpad_content: u8,
    /// content of padding byte (rx)
    rxpad_content: u8,
    /// address for rx extended addressing
    rx_ext_address: u8,
}

impl View for IsoTpOptions {
    type V = IsoTpOptionsV;

    closed spec fn view(&self) -> IsoTpOptionsV {
        IsoTpOptionsV {
            flags: self.flags,
            frame_txtime: self.frame_txtime,
            ext_address: self.ext_address,
            txpad_content: self.txpad_content,
            rxpad_content: self.rxpad_content,
            rx_ext_address: self.rx_ext_address,
        }
    }
}

impl IsoTpOptions {
    /// Build an option record. The transmission time must fit a 32-bit
    /// nanosecond count; a longer one is a construction error.
    pub fn new(
        flags: IsoTpBehaviour,
        frame_txtime: Duration,
        ext_address: u8,
        txpad_content: u8,
        rxpad_content: u8,
        rx_ext_address: u8,
    ) -> (r: Result<IsoTpOptions, std::num::TryFromIntError>)
        ensures
            r is Ok <==> frame_txtime@ <= u32::MAX,
            r matches Ok(o) ==> o@ == (IsoTpOptionsV {
                flags: flags@,
                frame_txtime: frame_txtime@ as u32,
                ext_address,
                txpad_content,
                rxpad_content,
                rx_ext_address,
            }),
    {
        let nanos: u128 = frame_txtime.as_nanos();
        match u32::try_from(nanos) {
            Ok(frame_txtime) => Ok(IsoTpOptions {
                flags: flags.bits(),
                frame_txtime,
                ext_address,
                txpad_content,
                rxpad_content,
                rx_ext_address,
            }),
            Err(e) => Err(e),
        }
    }

    /// True when the behaviour bit `bit` is set.
    pub fn has_flag(&self, bit: u32) -> (r: bool)
        ensures
            r == flag_set(self@.flags, bit),
    {
        self.flags & bit != 0
    }

    /// get flags for isotp behaviour
    pub fn get_flags(&self) -> (r: Option<IsoTpBehaviour>)
        ensures
            r is Some <==> self@.flags & ISOTP_BEHAVIOUR_MASK == self@.flags,
            r matches Some(b) ==> b@ == self@.flags,
    {
        IsoTpBehaviour::from_bits(self.flags)
    }

    /// set flags for isotp behaviour
    pub fn set_flags(&mut self, flags: IsoTpBehaviour)
        ensures
            final(self)@ == (IsoTpOptionsV { flags: flags@, ..old(self)@ }),
    {
        self.flags = flags.bits();
    }

    /// get frame transmission time (N_As/N_Ar)
    pub fn get_frame_txtime(&self) -> (r: Duration)
        ensures
            r@ == self@.frame_txtime,
    {
        Duration::from_nanos(self.frame_txtime as u64)
    }

    /// set frame transmission time (N_As/N_Ar); it must fit a 32-bit
    /// nanosecond count
    pub fn set_frame_txtime(&mut self, frame_txtime: Duration) -> (r: Result<
        (),
        std::num::TryFromIntError,
    >)
        ensures
            r is Ok <==> frame_txtime@ <= u32::MAX,
            r is Ok ==> final(self)@ == (IsoTpOptionsV {
                frame_txtime: frame_txtime@ as u32,
                ..old(self)@
            }),
            r is Err ==> final(self)@ == old(self)@,
    {
        let nanos: u128 = frame_txtime.as_nanos();
        match u32::try_from(nanos) {
            Ok(v) => {
                self.frame_txtime = v;
                Ok(())
            },
            Err(e) => Err(e),
        }
    }

    /// get address for extended addressing
    pub fn get_ext_address(&self) -> (r: u8)
        ensures
            r == self@.ext_address,
    {
        self.ext_address
    }

    /// set address for extended addressing
    pub fn set_ext_address(&mut self, ext_address: u8)
        ensures
            final(self)@ == (IsoTpOptionsV { ext_address, ..old(self)@ }),
    {
        self.ext_address = ext_address;
    }

    /// get content of padding byte (tx)
    pub fn get_txpad_content(&self) -> (r: u8)
        ensures
            r == self@.txpad_content,
    {
        self.txpad_content
    }

    /// set content of padding byte (tx)
    pub fn set_txpad_content(&mut self, txpad_content: u8)
        ensures
            final(self)@ == (IsoTpOptionsV { txpad_content, ..old(self)@ }),
    {
        self.txpad_content = txpad_content;
    }

    /// get content of padding byte (rx)
    pub fn get_rxpad_content(&self) -> (r: u8)
        ensures
            r == self@.rxpad_content,
    {
        self.rxpad_content
    }

    /// set content of padding byte (rx)
    pub fn set_rxpad_content(&mut self, rxpad_content: u8)
        ensures
            final(self)@ == (IsoTpOptionsV { rxpad_content, ..old(self)@ }),
    {
        self.rxpad_content = rxpad_content;
    }

    /// get address for rx extended addressing
    pub fn get_rx_ext_address(&self) -> (r: u8)
        ensures
            r == self@.rx_ext_address,
    {
        self.rx_ext_address
    }

    /// set address for rx extended addressing
    pub fn set_rx_ext_address(&mut self, rx_ext_address: u8)
        ensures
            final(self)@ == (IsoTpOptionsV { rx_ext_address, ..old(self)@ }),
    {
        self.rx_ext_address = rx_ext_address;
    }
}

impl Default for IsoTpOptions {
    /// The defaults defined in `linux/can/isotp.h`: no flags, no
    /// transmission time, padding content `0xCC`.
    fn default() -> (r: IsoTpOptions)
        ensures
            r@ == (IsoTpOptionsV {
                flags: 0x00,
                frame_txtime: 0x00,
                ext_address: 0x00,
                txpad_content: 0xCC,
                rxpad_content: 0xCC,
                rx_ext_address: 0x00,
            }),
    {
        IsoTpOptions {
            flags: 0x00,
            frame_txtime: 0x00,
            ext_address: 0x00,
            txpad_content: 0xCC,
            rxpad_content: 0xCC,
            rx_ext_address: 0x00,
        }
    }
}

/// The fields of `FlowControlOptions`, as plain values.
pub struct FlowControlOptionsV {
    pub bs: u8,
    pub stmin: u8,
    pub wftmax: u8,
}

/// Flow control options aka `can_isotp_fc_options`: what the receive
/// side advertises in its Flow Control frames.
pub struct FlowControlOptions {
    /// blocksize provided in FC frame; 0 = off
    bs: u8,
    /// separation time provided in FC frame:
    /// 0x00 - 0x7F: 0 - 127 ms; 0xF1 - 0xF9: 100 us - 900 us; rest reserved
    stmin: u8,
    /// max. number of wait frame transmissions; 0 = omit FC N_PDU WT
    wftmax: u8,
}

impl View for FlowControlOptions {
    type V = FlowControlOptionsV;

    closed spec fn view(&self) -> FlowControlOptionsV {
        FlowControlOptionsV { bs: self.bs, stmin: self.stmin, wftmax: self.wftmax }
    }
}

impl FlowControlOptions {
    /// Build a flow-control record from block size, separation time and
    /// wait-frame maximum.
    pub fn new(bs: u8, stmin: u8, wftmax: u8) -> (r: FlowControlOptions)
        ensures
            r@ == (FlowControlOptionsV { bs, stmin, wftmax }),
    {
        FlowControlOptions { bs, stmin, wftmax }
    }

    /// get blocksize provided in FC frame
    pub fn get_bs(&self) -> (r: u8)
        ensures
            r == self@.bs,
    {
        self.bs
    }

    /// get separation time provided in FC frame
    pub fn get_stmin(&self) -> (r: u8)
        ensures
            r == self@.stmin,
    {
        self.stmin
    }

    /// get max. number of wait frame transmissions
    pub fn get_wftmax(&self) -> (r: u8)
        ensures
            r == self@.wftmax,
    {
        self.wftmax
    }
}

impl Default for FlowControlOptions {
    /// The defaults defined in `linux/can/isotp.h`: no blocking, no
    /// separation time, no wait frames.
    fn default() -> (r: FlowControlOptions)
        ensures
            r@ == (FlowControlOptionsV { bs: 0, stmin: 0x00, wftmax: 0 }),
    {
        FlowControlOptions { bs: 0, stmin: 0x00, wftmax: 0 }
    }
}

/// The fields of `LinkLayerOptions`, as plain values.
pub struct LinkLayerOptionsV {
    pub mtu: u8,
    pub tx_dl: u8,
    pub tx_flags: u8,
}

/// Link layer options aka `can_isotp_ll_options`: frame type and
/// transmit data length of the underlying CAN link.
pub struct LinkLayerOptions {
    /// generated & accepted CAN frame type:
    /// CAN_MTU (16) = standard CAN 2.0, CANFD_MTU (72) = CAN FD frame
    mtu: u8,
    /// tx link layer data length in bytes: 8, 12, 16, 20, 24, 32, 48, 64
    tx_dl: u8,
    /// flags set into struct canfd_frame at frame creation, e.g. CANFD_BRS
    tx_flags: u8,
}

impl View for LinkLayerOptions {
    type V = LinkLayerOptionsV;

    closed spec fn view(&self) -> LinkLayerOptionsV {
        LinkLayerOptionsV { mtu: self.mtu, tx_dl: self.tx_dl, tx_flags: self.tx_flags }
    }
}

impl LinkLayerOptions {
    /// Build a link-layer record from MTU, transmit data length and
    /// CAN-FD transmit flags.
    pub fn new(mtu: u8, tx_dl: u8, tx_flags: TxFlags) -> (r: LinkLayerOptions)
        ensures
            r@ == (LinkLayerOptionsV { mtu, tx_dl, tx_flags: tx_flags@ }),
    {
        let tx_flags = tx_flags.bits();
        LinkLayerOptions { mtu, tx_dl, tx_flags }
    }

    /// get generated & accepted CAN frame type
    pub fn get_mtu(&self) -> (r: u8)
        ensures
            r == self@.mtu,
    {
        self.mtu
    }

    /// get tx link layer data length in bytes
    pub fn get_tx_dl(&self) -> (r: u8)
        ensures
            r == self@.tx_dl,
    {
        self.tx_dl
    }

    /// get CAN-FD transmit flags
    pub fn get_tx_flags(&self) -> (r: u8)
        ensures
            r == self@.tx_flags,
    {
        self.tx_flags
    }
}

impl Default for LinkLayerOptions {
    /// The defaults defined in `linux/can/isotp.h`: classic CAN frames
    /// with 8 payload bytes and no CAN-FD transmit flags.
    fn default() -> (r: LinkLayerOptions)
        ensures
            r@ == (LinkLayerOptionsV {
                mtu: SIZE_OF_CAN_FRAME,
                tx_dl: CAN_MAX_DLEN,
                tx_flags: 0x00,
            }),
    {
        LinkLayerOptions { mtu: SIZE_OF_CAN_FRAME, tx_dl: CAN_MAX_DLEN, tx_flags: 0x00 }
    }
}

} // verus!
