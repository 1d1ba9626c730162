//! Frame codec: the four ISO-TP PDU types and their bit-exact wire
//! layout on a classic 8-byte CAN payload, including the optional
//! extended-addressing prefix byte and padding.
//!
//! First byte (after the optional address byte): PDU-type nibble in the
//! high four bits (0 = Single, 1 = First, 2 = Consecutive, 3 = Flow
//! Control). A First Frame carries a 12-bit length, or a 32-bit escape
//! length when the 12-bit field is zero.

use vstd::prelude::*;

use crate::errors::DecodeError;
use crate::options::flag_set;
use crate::options::IsoTpOptions;
use crate::options::IsoTpOptionsV;
use crate::options::CAN_ISOTP_CHK_PAD_DATA;
use crate::options::CAN_ISOTP_CHK_PAD_LEN;
use crate::options::CAN_ISOTP_EXTEND_ADDR;
use crate::options::CAN_ISOTP_RX_EXT_ADDR;
use crate::options::CAN_ISOTP_TX_PADDING;

verus! {

/// Largest message length the 12-bit First Frame length field can name.
pub const MAX_12BIT_LEN: u32 = 0xFFF;

/// The status field of a Flow Control frame.
#[derive(PartialEq, Eq, Structural, Clone, Copy, Debug)]
pub enum FlowStatus {
    /// Clear to send: the sender may emit the next block.
    ContinueToSend,
    /// The receiver needs more time; the sender keeps waiting.
    Wait,
    /// The announced message overruns the receiver's buffer; terminal.
    Overflow,
}

/// One ISO-TP protocol data unit.
#[derive(PartialEq, Eq, Debug)]
pub enum Pdu {
    /// A complete message in one frame.
    Single { data: Vec<u8> },
    /// Opens a segmented message: its total length and the first bytes.
    First { total_len: u32, data: Vec<u8> },
    /// One later segment, numbered modulo 16.
    Consecutive { seq: u8, data: Vec<u8> },
    /// Flow-control feedback from the receiving side.
    FlowControl { status: FlowStatus, block_size: u8, st_min: u8 },
}

/// The mathematical shape of a PDU: byte sequences in place of vectors.
pub enum PduV {
    Single { data: Seq<u8> },
    First { total_len: u32, data: Seq<u8> },
    Consecutive { seq: u8, data: Seq<u8> },
    FlowControl { status: FlowStatus, block_size: u8, st_min: u8 },
}

impl View for Pdu {
    type V = PduV;

    open spec fn view(&self) -> PduV {
        match self {
            Pdu::Single { data } => PduV::Single { data: data@ },
            Pdu::First { total_len, data } => PduV::First { total_len: *total_len, data: data@ },
            Pdu::Consecutive { seq, data } => PduV::Consecutive { seq: *seq, data: data@ },
            Pdu::FlowControl { status, block_size, st_min } => PduV::FlowControl {
                status: *status,
                block_size: *block_size,
                st_min: *st_min,
            },
        }
    }
}

/// True when frames carry an extended-addressing prefix byte on the
/// transmit path.
pub open spec fn spec_tx_ext(o: IsoTpOptionsV) -> bool {
    flag_set(o.flags, CAN_ISOTP_EXTEND_ADDR)
}

/// True when received frames carry an extended-addressing prefix byte.
pub open spec fn spec_rx_ext(o: IsoTpOptionsV) -> bool {
    flag_set(o.flags, CAN_ISOTP_EXTEND_ADDR) || flag_set(o.flags, CAN_ISOTP_RX_EXT_ADDR)
}

/// The address byte expected on received frames.
pub open spec fn spec_rx_ext_addr(o: IsoTpOptionsV) -> u8 {
    if flag_set(o.flags, CAN_ISOTP_RX_EXT_ADDR) {
        o.rx_ext_address
    } else {
        o.ext_address
    }
}

/// Payload bytes a Single Frame can carry.
pub open spec fn sf_capacity(ext: bool) -> nat {
    if ext {
        6
    } else {
        7
    }
}

/// Payload bytes a Consecutive Frame can carry.
pub open spec fn cf_capacity(ext: bool) -> nat {
    if ext {
        6
    } else {
        7
    }
}

/// Payload bytes a First Frame carries beside its length field.
pub open spec fn ff_capacity(ext: bool, escape: bool) -> nat {
    if escape {
        if ext {
            1
        } else {
            2
        }
    } else {
        if ext {
            5
        } else {
            6
        }
    }
}

/// The numeric code of a flow status on the wire.
pub open spec fn fc_status_code(s: FlowStatus) -> u8 {
    match s {
        FlowStatus::ContinueToSend => 0,
        FlowStatus::Wait => 1,
        FlowStatus::Overflow => 2,
    }
}

/// A PDU that the wire format can represent: data within the frame
/// capacity, a First Frame length too large for a Single Frame and
/// carried with the exact layout its size demands, a sequence number
/// below 16.
pub open spec fn pdu_wf(p: PduV, ext: bool) -> bool {
    match p {
        PduV::Single { data } => data.len() <= sf_capacity(ext),
        PduV::First { total_len, data } => sf_capacity(ext) < total_len && data.len()
            == ff_capacity(ext, total_len > MAX_12BIT_LEN),
        PduV::Consecutive { seq, data } => seq < 16 && 1 <= data.len() <= cf_capacity(ext),
        PduV::FlowControl { .. } => true,
    }
}

/// The wire bytes of a PDU before addressing and padding.
pub open spec fn spec_encode_body(p: PduV) -> Seq<u8> {
    match p {
        PduV::Single { data } => seq![data.len() as u8] + data,
        PduV::First { total_len, data } => {
            if total_len <= MAX_12BIT_LEN {
                seq![0x10u8 | (total_len >> 8) as u8, (total_len & 0xFF) as u8] + data
            } else {
                seq![
                    0x10u8,
                    0x00u8,
                    (total_len >> 24) as u8,
                    ((total_len >> 16) & 0xFF) as u8,
                    ((total_len >> 8) & 0xFF) as u8,
                    (total_len & 0xFF) as u8,
                ] + data
            }
        },
        PduV::Consecutive { seq, data } => seq![0x20u8 | seq] + data,
        PduV::FlowControl { status, block_size, st_min } => seq![
            0x30u8 | fc_status_code(status),
            block_size,
            st_min,
        ],
    }
}

/// The full wire bytes of a PDU under the given options: the
/// extended-addressing prefix when enabled, then the PDU body, padded
/// to 8 bytes with the configured fill byte when transmit padding is
/// enabled.
pub open spec fn spec_encode(p: PduV, o: IsoTpOptionsV) -> Seq<u8> {
    let core = if spec_tx_ext(o) {
        seq![o.ext_address] + spec_encode_body(p)
    } else {
        spec_encode_body(p)
    };
    if flag_set(o.flags, CAN_ISOTP_TX_PADDING) && core.len() < 8 {
        core + Seq::new((8 - core.len() as int) as nat, |i: int| o.txpad_content)
    } else {
        core
    }
}

/// Append every byte of `data` to `v`.
fn push_all(v: &mut Vec<u8>, data: &Vec<u8>)
    ensures
        final(v)@ == old(v)@ + data@,
{
    let ghost base = v@;
    proof {
        assert(base + data@.take(0) =~= base);
    }
    for i in 0..data.len()
        invariant
            v@ == base + data@.take(i as int),
    {
        v.push(data[i]);
        proof {
            assert(v@ =~= base + data@.take(i + 1));
        }
    }
    proof {
        assert(base + data@.take(data@.len() as int) =~= base + data@);
    }
}

/// Append copies of `pad` to `v` until it is `target` bytes long.
fn pad_to(v: &mut Vec<u8>, pad: u8, target: usize)
    requires
        old(v)@.len() <= target,
    ensures
        final(v)@ == old(v)@ + Seq::new((target - old(v)@.len()) as nat, |i: int| pad),
{
    let ghost base = v@;
    while v.len() < target
        invariant
            base.len() <= v@.len() <= target,
            v@.take(base.len() as int) == base,
            forall|j: int| base.len() <= j < v@.len() ==> v@[j] == pad,
        decreases target - v@.len(),
    {
        v.push(pad);
    }
    proof {
        assert(v@ =~= base + Seq::new((target - base.len()) as nat, |i: int| pad));
    }
}

/// Encode one well-formed PDU to raw CAN payload bytes under the given
/// options.
pub fn encode(pdu: &Pdu, opts: &IsoTpOptions) -> (r: Vec<u8>)
    requires
        pdu_wf(pdu@, spec_tx_ext(opts@)),
    ensures
        r@ == spec_encode(pdu@, opts@),
{
    let mut v: Vec<u8> = Vec::new();
    if opts.has_flag(CAN_ISOTP_EXTEND_ADDR) {
        v.push(opts.get_ext_address());
    }
    let ghost prefix = v@;
    match pdu {
        Pdu::Single { data } => {
            v.push(data.len() as u8);
            push_all(&mut v, data);
        },
        Pdu::First { total_len, data } => {
            if *total_len <= MAX_12BIT_LEN {
                v.push(0x10u8 | (*total_len >> 8) as u8);
                v.push((*total_len & 0xFF) as u8);
            } else {
                v.push(0x10);
                v.push(0x00);
                v.push((*total_len >> 24) as u8);
                v.push(((*total_len >> 16) & 0xFF) as u8);
                v.push(((*total_len >> 8) & 0xFF) as u8);
                v.push((*total_len & 0xFF) as u8);
            }
            push_all(&mut v, data);
        },
        Pdu::Consecutive { seq, data } => {
            v.push(0x20u8 | *seq);
            push_all(&mut v, data);
        },
        Pdu::FlowControl { status, block_size, st_min } => {
            let code: u8 = match status {
                FlowStatus::ContinueToSend => 0,
                FlowStatus::Wait => 1,
                FlowStatus::Overflow => 2,
            };
            v.push(0x30u8 | code);
            v.push(*block_size);
            v.push(*st_min);
        },
    }
    proof {
        assert(v@ =~= prefix + spec_encode_body(pdu@));
        if spec_tx_ext(opts@) {
            assert(v@ =~= seq![opts@.ext_address] + spec_encode_body(pdu@));
        }
    }
    if opts.has_flag(CAN_ISOTP_TX_PADDING) && v.len() < 8 {
        let pad = opts.get_txpad_content();
        pad_to(&mut v, pad, 8);
    }
    proof {
        assert(v@ =~= spec_encode(pdu@, opts@));
    }
    v
}

/// The padding rules that the receive path applies to the bytes from
/// `start` on: with `CAN_ISOTP_CHK_PAD_LEN` the frame must be padded to
/// the full 8 bytes, with `CAN_ISOTP_CHK_PAD_DATA` every padding byte
/// must hold the configured receive fill byte.
pub open spec fn pad_region_ok(b: Seq<u8>, start: int, o: IsoTpOptionsV) -> bool {
    &&& flag_set(o.flags, CAN_ISOTP_CHK_PAD_LEN) ==> b.len() == 8
    &&& flag_set(o.flags, CAN_ISOTP_CHK_PAD_DATA) ==> forall|i: int|
        start <= i < b.len() ==> b[i] == o.rxpad_content
}

/// The flow status named by a wire code below 3.
pub open spec fn fc_status_of(code: u8) -> FlowStatus {
    if code == 0 {
        FlowStatus::ContinueToSend
    } else if code == 1 {
        FlowStatus::Wait
    } else {
        FlowStatus::Overflow
    }
}

/// Decoding of a Single Frame, after addressing checks.
pub open spec fn spec_decode_sf(b: Seq<u8>, o: IsoTpOptionsV, ext: bool) -> Result<
    PduV,
    DecodeError,
> {
    let base: int = if ext {
        1
    } else {
        0
    };
    let len = (b[base] & 0x0F) as int;
    if len > sf_capacity(ext) {
        Err(DecodeError::InvalidLength)
    } else if b.len() < base + 1 + len {
        Err(DecodeError::FrameTooShort)
    } else if !pad_region_ok(b, base + 1 + len, o) {
        Err(DecodeError::PaddingViolation)
    } else {
        Ok(PduV::Single { data: b.subrange(base + 1, base + 1 + len) })
    }
}

/// Decoding of a First Frame, after addressing checks. A First Frame
/// must fill the whole 8-byte payload; a 12-bit length field of zero
/// escapes to a 32-bit length in the following four bytes.
pub open spec fn spec_decode_ff(b: Seq<u8>, o: IsoTpOptionsV, ext: bool) -> Result<
    PduV,
    DecodeError,
> {
    let base: int = if ext {
        1
    } else {
        0
    };
    if b.len() != 8 {
        Err(DecodeError::FrameTooShort)
    } else {
        let len12 = (((b[base] & 0x0F) as u32) << 8) | (b[base + 1] as u32);
        if len12 == 0 {
            let len32 = ((b[base + 2] as u32) << 24) | ((b[base + 3] as u32) << 16) | ((b[base
                + 4] as u32) << 8) | (b[base + 5] as u32);
            if len32 <= MAX_12BIT_LEN {
                Err(DecodeError::InvalidLength)
            } else {
                Ok(PduV::First { total_len: len32, data: b.subrange(base + 6, 8) })
            }
        } else if len12 <= sf_capacity(ext) {
            Err(DecodeError::InvalidLength)
        } else {
            Ok(PduV::First { total_len: len12, data: b.subrange(base + 2, 8) })
        }
    }
}

/// Decoding of a Consecutive Frame, after addressing checks. Every byte
/// after the sequence byte is carried as data; when the message needs
/// fewer, reassembly trims the excess by the announced total length.
pub open spec fn spec_decode_cf(b: Seq<u8>, o: IsoTpOptionsV, ext: bool) -> Result<
    PduV,
    DecodeError,
> {
    let base: int = if ext {
        1
    } else {
        0
    };
    if b.len() < base + 2 {
        Err(DecodeError::FrameTooShort)
    } else if flag_set(o.flags, CAN_ISOTP_CHK_PAD_LEN) && b.len() != 8 {
        Err(DecodeError::PaddingViolation)
    } else {
        Ok(PduV::Consecutive { seq: b[base] & 0x0F, data: b.subrange(base + 1, b.len() as int) })
    }
}

/// Decoding of a Flow Control frame, after addressing checks.
pub open spec fn spec_decode_fc(b: Seq<u8>, o: IsoTpOptionsV, ext: bool) -> Result<
    PduV,
    DecodeError,
> {
    let base: int = if ext {
        1
    } else {
        0
    };
    if b.len() < base + 3 {
        Err(DecodeError::FrameTooShort)
    } else {
        let code = b[base] & 0x0F;
        if code > 2 {
            Err(DecodeError::InvalidFlowStatus)
        } else if !pad_region_ok(b, base + 3, o) {
            Err(DecodeError::PaddingViolation)
        } else {
            Ok(
                PduV::FlowControl {
                    status: fc_status_of(code),
                    block_size: b[base + 1],
                    st_min: b[base + 2],
                },
            )
        }
    }
}

/// What decoding a raw CAN payload returns under the given options:
/// the PDU, or the first failed check in decode order.
pub open spec fn spec_decode(b: Seq<u8>, o: IsoTpOptionsV) -> Result<PduV, DecodeError> {
    let ext = spec_rx_ext(o);
    let base: int = if ext {
        1
    } else {
        0
    };
    if b.len() < base + 1 {
        Err(DecodeError::FrameTooShort)
    } else if ext && b[0] != spec_rx_ext_addr(o) {
        Err(DecodeError::AddressMismatch)
    } else {
        let nib = b[base] >> 4;
        if nib == 0 {
            spec_decode_sf(b, o, ext)
        } else if nib == 1 {
            spec_decode_ff(b, o, ext)
        } else if nib == 2 {
            spec_decode_cf(b, o, ext)
        } else if nib == 3 {
            spec_decode_fc(b, o, ext)
        } else {
            Err(DecodeError::InvalidPduType)
        }
    }
}

/// The mathematical shape of a decode result.
pub open spec fn decode_result_view(r: Result<Pdu, DecodeError>) -> Result<PduV, DecodeError> {
    match r {
        Ok(p) => Ok(p@),
        Err(e) => Err(e),
    }
}

/// Options under which a frame encoded by a peer with the same record
/// decodes back: receive addressing mirrors transmit addressing, and the
/// padding checks only demand what the transmit path produces.
pub open spec fn loopback_options(o: IsoTpOptionsV) -> bool {
    &&& !flag_set(o.flags, CAN_ISOTP_RX_EXT_ADDR)
    &&& flag_set(o.flags, CAN_ISOTP_CHK_PAD_LEN) ==> flag_set(o.flags, CAN_ISOTP_TX_PADDING)
    &&& flag_set(o.flags, CAN_ISOTP_CHK_PAD_DATA) && flag_set(o.flags, CAN_ISOTP_TX_PADDING)
        ==> o.txpad_content == o.rxpad_content
}

/// Codec round trip: decoding an encoded well-formed PDU yields the PDU
/// back. A Consecutive Frame is the one case with play: its data is not
/// delimited on the wire, so transmit padding comes back as extra
/// trailing bytes, which reassembly trims by the announced total length.
pub proof fn lemma_decode_encode(p: PduV, o: IsoTpOptionsV)
    requires
        pdu_wf(p, spec_tx_ext(o)),
        loopback_options(o),
    ensures
        !(p is Consecutive) ==> spec_decode(spec_encode(p, o), o) == Ok::<PduV, DecodeError>(p),
        p matches PduV::Consecutive { seq, data } ==> spec_decode(spec_encode(p, o), o) matches Ok(
            PduV::Consecutive { seq: s2, data: d2 },
        ) && s2 == seq && data.len() <= d2.len() <= cf_capacity(spec_tx_ext(o)) && d2.take(
            data.len() as int,
        ) == data,
{
    let ext = spec_tx_ext(o);
    let base: int = if ext {
        1
    } else {
        0
    };
    let body = spec_encode_body(p);
    let core = if ext {
        seq![o.ext_address] + body
    } else {
        body
    };
    let b = spec_encode(p, o);
    assert(spec_rx_ext(o) == ext);
    assert(ext ==> spec_rx_ext_addr(o) == o.ext_address);
    match p {
        PduV::Single { data } => {
            let len8 = data.len() as u8;
            assert(core.len() == base + 1 + data.len());
            assert(core.len() <= 8);
            assert(b.take(core.len() as int) =~= core);
            assert(len8 <= 7 ==> (len8 >> 4) == 0 && (len8 & 0x0F) == len8) by (bit_vector);
            assert(b[base] == len8);
            assert(b.subrange(base + 1, base + 1 + data.len() as int) =~= data);
            assert(pad_region_ok(b, base + 1 + data.len() as int, o));
            assert(spec_decode(b, o) == Ok::<PduV, DecodeError>(p));
        },
        PduV::First { total_len, data } => {
            let t = total_len;
            if t <= MAX_12BIT_LEN {
                let hi = 0x10u8 | (t >> 8) as u8;
                let lo = (t & 0xFF) as u8;
                assert(core.len() == 8);
                assert(b =~= core);
                assert(b[base] == hi && b[base + 1] == lo);
                assert(t <= 0xFFF ==> (hi >> 4) == 1 && ((((hi & 0x0F) as u32) << 8) | (
                lo as u32)) == t) by (bit_vector)
                    requires
                        hi == 0x10u8 | (t >> 8) as u8,
                        lo == (t & 0xFF) as u8,
                ;
                assert(t > sf_capacity(ext));
                assert(b.subrange(base + 2, 8) =~= data);
                assert(spec_decode(b, o) == Ok::<PduV, DecodeError>(p));
            } else {
                let b2 = (t >> 24) as u8;
                let b3 = ((t >> 16) & 0xFF) as u8;
                let b4 = ((t >> 8) & 0xFF) as u8;
                let b5 = (t & 0xFF) as u8;
                assert(core.len() == 8);
                assert(b =~= core);
                assert(b[base] == 0x10u8 && b[base + 1] == 0x00u8);
                assert(b[base + 2] == b2 && b[base + 3] == b3 && b[base + 4] == b4 && b[base + 5]
                    == b5);
                assert((0x10u8 >> 4) == 1 && ((((0x10u8 & 0x0F) as u32) << 8) | (0x00u8 as u32))
                    == 0) by (bit_vector);
                assert((((b2 as u32) << 24) | ((b3 as u32) << 16) | ((b4 as u32) << 8) | (
                b5 as u32)) == t) by (bit_vector)
                    requires
                        b2 == (t >> 24) as u8,
                        b3 == ((t >> 16) & 0xFF) as u8,
                        b4 == ((t >> 8) & 0xFF) as u8,
                        b5 == (t & 0xFF) as u8,
                ;
                assert(b.subrange(base + 6, 8) =~= data);
                assert(spec_decode(b, o) == Ok::<PduV, DecodeError>(p));
            }
        },
        PduV::Consecutive { seq, data } => {
            let pci = 0x20u8 | seq;
            assert(core.len() == base + 1 + data.len());
            assert(core.len() <= 8);
            assert(b.take(core.len() as int) =~= core);
            assert(b[base] == pci);
            assert(seq < 16 ==> (pci >> 4) == 2 && (pci & 0x0F) == seq) by (bit_vector)
                requires
                    pci == 0x20u8 | seq,
            ;
            assert(b.len() >= base + 2);
            let d2 = b.subrange(base + 1, b.len() as int);
            assert(d2.take(data.len() as int) =~= data);
            assert(spec_decode(b, o) matches Ok(PduV::Consecutive { seq: s2, data: dd }) && s2
                == seq && dd == d2);
        },
        PduV::FlowControl { status, block_size, st_min } => {
            let code = fc_status_code(status);
            let pci = 0x30u8 | code;
            assert(core.len() == base + 3);
            assert(b.take(core.len() as int) =~= core);
            assert(b[base] == pci && b[base + 1] == block_size && b[base + 2] == st_min);
            assert(code <= 2 ==> (pci >> 4) == 3 && (pci & 0x0F) == code) by (bit_vector)
                requires
                    pci == 0x30u8 | code,
            ;
            assert(fc_status_of(code) == status);
            assert(pad_region_ok(b, base + 3, o));
            assert(spec_decode(b, o) == Ok::<PduV, DecodeError>(p));
        },
    }
}

/// Copy the bytes `from..to` of `b` into a fresh vector.
pub(crate) fn copy_range(b: &[u8], from: usize, to: usize) -> (r: Vec<u8>)
    requires
        from <= to <= b@.len(),
    ensures
        r@ == b@.subrange(from as int, to as int),
{
    let mut v: Vec<u8> = Vec::new();
    for i in from..to
        invariant
            from <= i <= to <= b@.len(),
            v@ == b@.subrange(from as int, i as int),
    {
        v.push(b[i]);
        proof {
            assert(v@ =~= b@.subrange(from as int, i + 1));
        }
    }
    v
}

/// True when every byte from `start` on equals `pad`.
fn pad_bytes_match(b: &[u8], start: usize, pad: u8) -> (r: bool)
    requires
        start <= b@.len(),
    ensures
        r == (forall|i: int| start <= i < b@.len() ==> b@[i] == pad),
{
    for i in start..b.len()
        invariant
            forall|j: int| start <= j < i ==> b@[j] == pad,
    {
        if b[i] != pad {
            return false;
        }
    }
    true
}

/// Apply the configured padding checks to the bytes from `start` on.
fn check_padding(b: &[u8], start: usize, opts: &IsoTpOptions) -> (r: bool)
    requires
        start <= b@.len(),
    ensures
        r == pad_region_ok(b@, start as int, opts@),
{
    if opts.has_flag(CAN_ISOTP_CHK_PAD_LEN) && b.len() != 8 {
        return false;
    }
    if opts.has_flag(CAN_ISOTP_CHK_PAD_DATA) {
        return pad_bytes_match(b, start, opts.get_rxpad_content());
    }
    true
}

/// What reassembly relies on of every decoded PDU: a sequence number
/// below 16 and First Frame data short of the announced total length.
pub open spec fn pdu_rx_wf(p: PduV) -> bool {
    match p {
        PduV::Single { .. } => true,
        PduV::First { total_len, data } => data.len() < total_len,
        PduV::Consecutive { seq, .. } => seq < 16,
        PduV::FlowControl { .. } => true,
    }
}

/// Every PDU that decoding accepts satisfies `pdu_rx_wf`.
pub proof fn lemma_spec_decode_rx_wf(b: Seq<u8>, o: IsoTpOptionsV)
    ensures
        spec_decode(b, o) matches Ok(p) ==> pdu_rx_wf(p),
{
    let ext = spec_rx_ext(o);
    let base: int = if ext {
        1
    } else {
        0
    };
    if base + 1 <= b.len() {
        let pci: u8 = b[base];
        if pci >> 4 == 2 {
            assert(pci & 0x0F < 16) by (bit_vector);
        }
    }
}

/// Decode one raw CAN payload to a PDU under the given options,
/// rejecting frames shorter than their declared PDU type requires,
/// malformed length fields, reserved flow-status codes, a wrong
/// extended address, and padding that fails the configured checks.
pub fn decode(frame: &[u8], opts: &IsoTpOptions) -> (r: Result<Pdu, DecodeError>)
    ensures
        decode_result_view(r) == spec_decode(frame@, opts@),
{
    let ext = opts.has_flag(CAN_ISOTP_EXTEND_ADDR) || opts.has_flag(CAN_ISOTP_RX_EXT_ADDR);
    let base: usize = if ext {
        1
    } else {
        0
    };
    if frame.len() < base + 1 {
        return Err(DecodeError::FrameTooShort);
    }
    if ext {
        let want = if opts.has_flag(CAN_ISOTP_RX_EXT_ADDR) {
            opts.get_rx_ext_address()
        } else {
            opts.get_ext_address()
        };
        if frame[0] != want {
            return Err(DecodeError::AddressMismatch);
        }
    }
    let pci = frame[base];
    let nib = pci >> 4;
    if nib == 0 {
        let len = (pci & 0x0F) as usize;
        let cap: usize = if ext {
            6
        } else {
            7
        };
        if len > cap {
            return Err(DecodeError::InvalidLength);
        }
        if frame.len() < base + 1 + len {
            return Err(DecodeError::FrameTooShort);
        }
        if !check_padding(frame, base + 1 + len, opts) {
            return Err(DecodeError::PaddingViolation);
        }
        Ok(Pdu::Single { data: copy_range(frame, base + 1, base + 1 + len) })
    } else if nib == 1 {
        if frame.len() != 8 {
            return Err(DecodeError::FrameTooShort);
        }
        let len12 = (((pci & 0x0F) as u32) << 8u32) | (frame[base + 1] as u32);
        if len12 == 0 {
            let len32 = ((frame[base + 2] as u32) << 24u32) | ((frame[base + 3] as u32) << 16u32)
                | ((frame[base + 4] as u32) << 8u32) | (frame[base + 5] as u32);
            if len32 <= MAX_12BIT_LEN {
                return Err(DecodeError::InvalidLength);
            }
            Ok(Pdu::First { total_len: len32, data: copy_range(frame, base + 6, 8) })
        } else {
            let cap: u32 = if ext {
                6
            } else {
                7
            };
            if len12 <= cap {
                return Err(DecodeError::InvalidLength);
            }
            Ok(Pdu::First { total_len: len12, data: copy_range(frame, base + 2, 8) })
        }
    } else if nib == 2 {
        if frame.len() < base + 2 {
            return Err(DecodeError::FrameTooShort);
        }
        if opts.has_flag(CAN_ISOTP_CHK_PAD_LEN) && frame.len() != 8 {
            return Err(DecodeError::PaddingViolation);
        }
        Ok(Pdu::Consecutive { seq: pci & 0x0F, data: copy_range(frame, base + 1, frame.len()) })
    } else if nib == 3 {
        if frame.len() < base + 3 {
            return Err(DecodeError::FrameTooShort);
        }
        let code = pci & 0x0F;
        if code > 2 {
            return Err(DecodeError::InvalidFlowStatus);
        }
        if !check_padding(frame, base + 3, opts) {
            return Err(DecodeError::PaddingViolation);
        }
        let status = if code == 0 {
            FlowStatus::ContinueToSend
        } else if code == 1 {
            FlowStatus::Wait
        } else {
            FlowStatus::Overflow
        };
        Ok(Pdu::FlowControl { status, block_size: frame[base + 1], st_min: frame[base + 2] })
    } else {
        Err(DecodeError::InvalidPduType)
    }
}

} // verus!
