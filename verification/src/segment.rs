//! Segmentation engine: turns an outgoing logical message into the
//! ordered sequence of ISO-TP PDUs that transmit it, and paces the
//! Consecutive Frames by the flow-control feedback of the peer.
//!
//! A message short enough for one frame becomes a Single Frame and the
//! transfer completes at once. A longer one opens with a First Frame,
//! then the engine waits for a Flow Control frame before each block of
//! Consecutive Frames.

use vstd::prelude::*;

use crate::codec::cf_capacity;
use crate::codec::ff_capacity;
use crate::codec::sf_capacity;
use crate::codec::FlowStatus;
use crate::codec::Pdu;
use crate::codec::PduV;
use crate::codec::MAX_12BIT_LEN;
use crate::errors::ProtocolError;

verus! {

/// Largest message length the First Frame length fields can name.
pub const MAX_MSG_LEN: u32 = 0xFFFF_FFFF;

/// The mathematical shape of a sequence of PDUs.
pub open spec fn pdus_view(s: Seq<Pdu>) -> Seq<PduV> {
    s.map_values(|p: Pdu| p@)
}

/// The Consecutive Frames that carry `msg` from `offset` on, numbered
/// from `seqno` and cycling modulo 16, each carrying a full frame's
/// data but the last.
pub open spec fn spec_cf_seq(msg: Seq<u8>, ext: bool, offset: int, seqno: u8) -> Seq<PduV>
    decreases msg.len() - offset,
{
    if offset < 0 || offset >= msg.len() {
        Seq::empty()
    } else {
        let take = if msg.len() - offset < cf_capacity(ext) {
            msg.len() - offset
        } else {
            cf_capacity(ext) as int
        };
        seq![PduV::Consecutive { seq: seqno, data: msg.subrange(offset, offset + take) }]
            + spec_cf_seq(msg, ext, offset + take, ((seqno + 1) % 16) as u8)
    }
}

/// The canonical frame sequence of a message: one Single Frame when it
/// fits, else a First Frame carrying the length and the first bytes,
/// followed by the Consecutive Frames numbered from 1.
pub open spec fn spec_segment(msg: Seq<u8>, ext: bool) -> Seq<PduV> {
    if msg.len() <= sf_capacity(ext) {
        seq![PduV::Single { data: msg }]
    } else {
        let ffcap = ff_capacity(ext, msg.len() > MAX_12BIT_LEN);
        seq![PduV::First { total_len: msg.len() as u32, data: msg.take(ffcap as int) }]
            + spec_cf_seq(msg, ext, ffcap as int, 1)
    }
}

/// Produce the whole canonical frame sequence of a message at once, as
/// it would go out under an unlimited block size.
pub fn segment_message(msg: &Vec<u8>, ext: bool) -> (r: Vec<Pdu>)
    requires
        msg@.len() <= MAX_MSG_LEN,
    ensures
        pdus_view(r@) == spec_segment(msg@, ext),
{
    let mut out: Vec<Pdu> = Vec::new();
    let sfcap: usize = if ext {
        6
    } else {
        7
    };
    if msg.len() <= sfcap {
        let p = Pdu::Single { data: crate::codec::copy_range(msg.as_slice(), 0, msg.len()) };
        proof {
            assert(p@ == PduV::Single { data: msg@ }) by {
                assert(msg@.subrange(0, msg@.len() as int) =~= msg@);
            }
        }
        out.push(p);
        proof {
            assert(pdus_view(out@) =~= spec_segment(msg@, ext));
        }
        return out;
    }
    let escape = msg.len() > 0xFFF;
    let ffcap: usize = if escape {
        if ext {
            1
        } else {
            2
        }
    } else {
        if ext {
            5
        } else {
            6
        }
    };
    let ff = Pdu::First {
        total_len: msg.len() as u32,
        data: crate::codec::copy_range(msg.as_slice(), 0, ffcap),
    };
    proof {
        assert(msg@.subrange(0, ffcap as int) =~= msg@.take(ffcap as int));
    }
    out.push(ff);
    proof {
        assert(pdus_view(out@) =~= seq![
            PduV::First {
                total_len: msg@.len() as u32,
                data: msg@.take(ff_capacity(ext, msg@.len() > MAX_12BIT_LEN) as int),
            },
        ]);
    }
    let cfcap: usize = if ext {
        6
    } else {
        7
    };
    let mut offset: usize = ffcap;
    let mut seqno: u8 = 1;
    while offset < msg.len()
        invariant
            msg@.len() <= MAX_MSG_LEN,
            sf_capacity(ext) < msg@.len(),
            cfcap == cf_capacity(ext),
            offset <= msg@.len(),
            seqno < 16,
            pdus_view(out@) + spec_cf_seq(msg@, ext, offset as int, seqno) == spec_segment(
                msg@,
                ext,
            ),
        decreases msg@.len() - offset,
    {
        let remaining = msg.len() - offset;
        let take = if remaining < cfcap {
            remaining
        } else {
            cfcap
        };
        let cf = Pdu::Consecutive {
            seq: seqno,
            data: crate::codec::copy_range(msg.as_slice(), offset, offset + take),
        };
        let ghost prev = pdus_view(out@);
        let ghost rest = spec_cf_seq(msg@, ext, offset as int, seqno);
        out.push(cf);
        proof {
            assert(pdus_view(out@) =~= prev.push(cf@));
            assert(rest == seq![cf@] + spec_cf_seq(
                msg@,
                ext,
                offset + take,
                ((seqno + 1) % 16) as u8,
            ));
            assert(prev.push(cf@) + spec_cf_seq(msg@, ext, offset + take, ((seqno + 1) % 16) as u8)
                =~= prev + rest);
        }
        offset = offset + take;
        seqno = (seqno + 1) % 16;
    }
    proof {
        assert(spec_cf_seq(msg@, ext, offset as int, seqno) =~= Seq::<PduV>::empty());
        assert(pdus_view(out@) =~= pdus_view(out@) + Seq::<PduV>::empty());
    }
    out
}

/// Where a transmit sits: no transfer, awaiting a Flow Control frame,
/// or clear to send Consecutive Frames.
#[derive(PartialEq, Eq, Structural, Clone, Copy, Debug)]
pub enum SegPhase {
    Idle,
    AwaitFlowControl,
    Sending,
}

/// The mathematical shape of a `Segmenter`.
pub struct SegmenterV {
    pub phase: SegPhase,
    pub msg: Seq<u8>,
    pub offset: int,
    pub next_seq: u8,
    pub block_size: u8,
    pub frames_in_block: u8,
    pub st_min: u8,
    pub wait_count: u8,
    pub wftmax: u8,
    pub ext: bool,
    pub force_st_min: Option<u8>,
}

/// The configuration fields, which no transfer changes.
pub open spec fn same_config(a: SegmenterV, b: SegmenterV) -> bool {
    a.wftmax == b.wftmax && a.ext == b.ext && a.force_st_min == b.force_st_min
}

/// A transmit state the engine can actually be in: outside `Idle` the
/// message is longer than a Single Frame carries, the offset sits past
/// the First Frame data and short of the end, the sequence number is
/// below 16, the wait counter within bounds, and inside a bounded block
/// fewer frames sent than the block allows.
pub open spec fn seg_wf(v: SegmenterV) -> bool {
    match v.phase {
        SegPhase::Idle => true,
        _ => sf_capacity(v.ext) < v.msg.len() <= MAX_MSG_LEN && ff_capacity(
            v.ext,
            v.msg.len() > MAX_12BIT_LEN,
        ) <= v.offset < v.msg.len() && v.next_seq < 16 && v.wait_count <= v.wftmax && (v.phase
            is Sending && v.block_size != 0 ==> v.frames_in_block < v.block_size),
    }
}

/// The transmit state after a reset: idle, with the configuration
/// kept.
pub open spec fn seg_reset(v: SegmenterV) -> SegmenterV {
    SegmenterV {
        phase: SegPhase::Idle,
        msg: Seq::empty(),
        offset: 0,
        next_seq: 0,
        block_size: 0,
        frames_in_block: 0,
        wait_count: 0,
        ..v
    }
}

/// What one Flow Control frame does to a transmit awaiting one.
/// `ContinueToSend` grants a block of `block_size` frames (0 =
/// unlimited) at the peer's separation time, unless a local override is
/// forced. `Wait` is counted; one more than `wftmax` consecutive Waits
/// abort with `TooManyWaitFrames`. `Overflow` aborts with
/// `ReceiverOverflow`.
pub open spec fn seg_fc_step(v: SegmenterV, status: FlowStatus, block_size: u8, st_min: u8) -> (
    SegmenterV,
    Result<(), ProtocolError>,
) {
    match status {
        FlowStatus::ContinueToSend => (
            SegmenterV {
                phase: SegPhase::Sending,
                block_size,
                frames_in_block: 0,
                st_min: if v.force_st_min is Some {
                    v.force_st_min->0
                } else {
                    st_min
                },
                wait_count: 0,
                ..v
            },
            Ok(()),
        ),
        FlowStatus::Wait => {
            if v.wait_count < v.wftmax {
                (SegmenterV { wait_count: (v.wait_count + 1) as u8, ..v }, Ok(()))
            } else {
                (seg_reset(v), Err(ProtocolError::TooManyWaitFrames))
            }
        },
        FlowStatus::Overflow => (seg_reset(v), Err(ProtocolError::ReceiverOverflow)),
    }
}

/// What producing one Consecutive Frame does to a transmit that is
/// clear to send: the state after the frame, and the frame, which is
/// the head of the canonical remainder of the message. Exhausting the
/// message completes the transfer; exhausting a bounded block leaves
/// the engine awaiting flow control again.
pub open spec fn seg_next_step(v: SegmenterV) -> (SegmenterV, PduV) {
    let take = cf_take(v.msg.len() as int, v.offset, v.ext);
    let pdu = PduV::Consecutive { seq: v.next_seq, data: v.msg.subrange(v.offset, v.offset + take) };
    let offset2 = v.offset + take;
    let nseq = ((v.next_seq + 1) % 16) as u8;
    if offset2 == v.msg.len() {
        (SegmenterV { phase: SegPhase::Idle, offset: offset2, next_seq: nseq, ..v }, pdu)
    } else if v.block_size != 0 {
        let fib = (v.frames_in_block + 1) as u8;
        if fib == v.block_size {
            (
                SegmenterV {
                    phase: SegPhase::AwaitFlowControl,
                    offset: offset2,
                    next_seq: nseq,
                    frames_in_block: fib,
                    wait_count: 0,
                    ..v
                },
                pdu,
            )
        } else {
            (
                SegmenterV {
                    phase: SegPhase::Sending,
                    offset: offset2,
                    next_seq: nseq,
                    frames_in_block: fib,
                    ..v
                },
                pdu,
            )
        }
    } else {
        (SegmenterV { phase: SegPhase::Sending, offset: offset2, next_seq: nseq, ..v }, pdu)
    }
}

/// The segmentation engine of one session: at most one outbound
/// message at a time.
pub struct Segmenter {
    /// Where the transfer sits.
    phase: SegPhase,
    /// The message being transmitted.
    msg: Vec<u8>,
    /// How many bytes have been handed out in frames.
    offset: usize,
    /// The sequence number of the next Consecutive Frame.
    next_seq: u8,
    /// The block size the peer granted; 0 = unlimited.
    block_size: u8,
    /// Consecutive Frames sent since the last Flow Control frame.
    frames_in_block: u8,
    /// The separation time in force, in wire format.
    st_min: u8,
    /// Consecutive Wait status frames received since the last grant.
    wait_count: u8,
    /// How many consecutive Wait status frames the session tolerates.
    wftmax: u8,
    /// Whether frames carry an extended-addressing prefix byte.
    ext: bool,
    /// A locally forced separation time overriding the peer's.
    force_st_min: Option<u8>,
}

impl View for Segmenter {
    type V = SegmenterV;

    closed spec fn view(&self) -> SegmenterV {
        SegmenterV {
            phase: self.phase,
            msg: self.msg@,
            offset: self.offset as int,
            next_seq: self.next_seq,
            block_size: self.block_size,
            frames_in_block: self.frames_in_block,
            st_min: self.st_min,
            wait_count: self.wait_count,
            wftmax: self.wftmax,
            ext: self.ext,
            force_st_min: self.force_st_min,
        }
    }
}

impl Segmenter {
    /// A transmit state the engine can actually be in.
    pub open spec fn wf(&self) -> bool {
        seg_wf(self@)
    }

    /// A fresh, idle engine. `wftmax` bounds consecutive Wait frames;
    /// `force_st_min` overrides the separation time the peer grants.
    pub fn new(ext: bool, wftmax: u8, force_st_min: Option<u8>) -> (r: Segmenter)
        ensures
            r@.phase is Idle,
            r@.ext == ext,
            r@.wftmax == wftmax,
            r@.force_st_min == force_st_min,
            r.wf(),
    {
        Segmenter {
            phase: SegPhase::Idle,
            msg: Vec::new(),
            offset: 0,
            next_seq: 0,
            block_size: 0,
            frames_in_block: 0,
            st_min: 0,
            wait_count: 0,
            wftmax,
            ext,
            force_st_min,
        }
    }

    /// Where the transfer sits.
    pub fn phase(&self) -> (r: SegPhase)
        ensures
            r == self@.phase,
    {
        self.phase
    }

    /// The separation time in force, in wire format.
    pub fn st_min(&self) -> (r: u8)
        ensures
            r == self@.st_min,
    {
        self.st_min
    }

    /// Open a transfer: returns the first frame of the message's
    /// canonical frame sequence. A message within the Single Frame
    /// capacity goes out whole and the transfer completes at once; a
    /// longer one opens with a First Frame and the engine then awaits
    /// flow control.
    pub fn start(&mut self, msg: Vec<u8>) -> (r: Pdu)
        requires
            old(self).wf(),
            old(self)@.phase is Idle,
            msg@.len() <= MAX_MSG_LEN,
        ensures
            final(self).wf(),
            same_config(final(self)@, old(self)@),
            r@ == spec_segment(msg@, old(self)@.ext)[0],
            (r@ is Single) <==> msg@.len() <= sf_capacity(old(self)@.ext),
            msg@.len() <= sf_capacity(old(self)@.ext) ==> final(self)@.phase is Idle,
            msg@.len() > sf_capacity(old(self)@.ext) ==> final(self)@.phase is AwaitFlowControl
                && final(self)@.msg == msg@ && final(self)@.offset == ff_capacity(
                old(self)@.ext,
                msg@.len() > MAX_12BIT_LEN,
            ) && final(self)@.next_seq == 1 && final(self)@.wait_count == 0,
    {
        let sfcap: usize = if self.ext {
            6
        } else {
            7
        };
        if msg.len() <= sfcap {
            proof {
                assert(msg@.subrange(0, msg@.len() as int) =~= msg@);
            }
            return Pdu::Single { data: msg };
        }
        let escape = msg.len() > 0xFFF;
        let ffcap: usize = if escape {
            if self.ext {
                1
            } else {
                2
            }
        } else {
            if self.ext {
                5
            } else {
                6
            }
        };
        let total_len = msg.len() as u32;
        self.msg = msg;
        self.offset = ffcap;
        self.next_seq = 1;
        self.wait_count = 0;
        self.frames_in_block = 0;
        self.block_size = 0;
        self.phase = SegPhase::AwaitFlowControl;
        let data = crate::codec::copy_range(self.msg.as_slice(), 0, ffcap);
        proof {
            assert(self.msg@.subrange(0, ffcap as int) =~= self.msg@.take(ffcap as int));
        }
        Pdu::First { total_len, data }
    }

    /// Consume one Flow Control frame while awaiting one.
    ///
    /// `ContinueToSend` grants a block: the engine adopts the peer's
    /// block size and separation time (unless a local override is
    /// forced) and is clear to send. `Wait` is counted: one more than
    /// `wftmax` consecutive Waits abort the transfer with
    /// `TooManyWaitFrames`. `Overflow` aborts it with
    /// `ReceiverOverflow`.
    pub fn handle_flow_control(&mut self, status: FlowStatus, block_size: u8, st_min: u8) -> (r:
        Result<(), ProtocolError>)
        requires
            old(self).wf(),
            old(self)@.phase is AwaitFlowControl,
        ensures
            final(self).wf(),
            same_config(final(self)@, old(self)@),
            final(self)@ == seg_fc_step(old(self)@, status, block_size, st_min).0,
            r == seg_fc_step(old(self)@, status, block_size, st_min).1,
            status is ContinueToSend ==> r is Ok && final(self)@ == (SegmenterV {
                phase: SegPhase::Sending,
                block_size,
                frames_in_block: 0,
                st_min: (if old(self)@.force_st_min is Some {
                    old(self)@.force_st_min->0
                } else {
                    st_min
                }),
                wait_count: 0,
                ..old(self)@
            }),
            status is Wait && old(self)@.wait_count < old(self)@.wftmax ==> r is Ok && final(self)@ == (SegmenterV { wait_count: (old(self)@.wait_count + 1) as u8, ..old(self)@ }),
            status is Wait && old(self)@.wait_count >= old(self)@.wftmax ==> r == Err::<
                (),
                ProtocolError,
            >(ProtocolError::TooManyWaitFrames) && final(self)@.phase is Idle,
            status is Overflow ==> r == Err::<(), ProtocolError>(ProtocolError::ReceiverOverflow)
                && final(self)@.phase is Idle,
    {
        match status {
            FlowStatus::ContinueToSend => {
                self.block_size = block_size;
                self.frames_in_block = 0;
                self.wait_count = 0;
                self.st_min = match self.force_st_min {
                    Some(f) => f,
                    None => st_min,
                };
                self.phase = SegPhase::Sending;
                Ok(())
            },
            FlowStatus::Wait => {
                if self.wait_count < self.wftmax {
                    self.wait_count = self.wait_count + 1;
                    Ok(())
                } else {
                    self.reset();
                    Err(ProtocolError::TooManyWaitFrames)
                }
            },
            FlowStatus::Overflow => {
                self.reset();
                Err(ProtocolError::ReceiverOverflow)
            },
        }
    }

    /// Produce the next Consecutive Frame while clear to send: the head
    /// of the canonical remainder of the message. When the message is
    /// exhausted the transfer completes; when the granted block is
    /// exhausted first, the engine awaits flow control again.
    pub fn next_frame(&mut self) -> (r: Pdu)
        requires
            old(self).wf(),
            old(self)@.phase is Sending,
        ensures
            final(self).wf(),
            same_config(final(self)@, old(self)@),
            final(self)@ == seg_next_step(old(self)@).0,
            r@ == seg_next_step(old(self)@).1,
            r@ == spec_cf_seq(old(self)@.msg, old(self)@.ext, old(self)@.offset, old(self)@.next_seq)[0],
            r@ matches PduV::Consecutive { seq, data } && seq == old(self)@.next_seq && data
                == old(self)@.msg.subrange(
                old(self)@.offset,
                old(self)@.offset + cf_take(old(self)@.msg.len() as int, old(self)@.offset, old(self)@.ext),
            ),
            final(self)@.msg == old(self)@.msg,
            final(self)@.offset == old(self)@.offset + cf_take(
                old(self)@.msg.len() as int,
                old(self)@.offset,
                old(self)@.ext,
            ),
            final(self)@.next_seq == ((old(self)@.next_seq + 1) % 16) as u8,
            final(self)@.st_min == old(self)@.st_min,
            final(self)@.block_size == old(self)@.block_size,
            final(self)@.offset == old(self)@.msg.len() ==> final(self)@.phase is Idle,
            final(self)@.offset < old(self)@.msg.len() ==> {
                &&& old(self)@.block_size != 0 && old(self)@.frames_in_block + 1
                    == old(self)@.block_size ==> final(self)@.phase is AwaitFlowControl && final(self)@.wait_count == 0
                &&& !(old(self)@.block_size != 0 && old(self)@.frames_in_block + 1
                    == old(self)@.block_size) ==> final(self)@.phase is Sending
                &&& old(self)@.block_size != 0 ==> final(self)@.frames_in_block == old(self)@.frames_in_block + 1
            },
    {
        let cfcap: usize = if self.ext {
            6
        } else {
            7
        };
        let remaining = self.msg.len() - self.offset;
        let take = if remaining < cfcap {
            remaining
        } else {
            cfcap
        };
        let data = crate::codec::copy_range(self.msg.as_slice(), self.offset, self.offset + take);
        let r = Pdu::Consecutive { seq: self.next_seq, data };
        self.offset = self.offset + take;
        self.next_seq = (self.next_seq + 1) % 16;
        if self.offset == self.msg.len() {
            self.phase = SegPhase::Idle;
        } else if self.block_size != 0 {
            self.frames_in_block = self.frames_in_block + 1;
            if self.frames_in_block == self.block_size {
                self.wait_count = 0;
                self.phase = SegPhase::AwaitFlowControl;
            }
        }
        r
    }

    /// The frame awaited did not arrive within the configured timeout.
    /// A transfer in progress is abandoned with a `Timeout` failure and
    /// the engine resets to its initial state for a later retry; when
    /// idle, nothing happens.
    pub fn on_timeout(&mut self) -> (r: Result<(), ProtocolError>)
        requires
            old(self).wf(),
        ensures
            final(self).wf(),
            same_config(final(self)@, old(self)@),
            final(self)@.phase is Idle,
            r == (if old(self)@.phase is Idle {
                Ok::<(), ProtocolError>(())
            } else {
                Err::<(), ProtocolError>(ProtocolError::Timeout)
            }),
    {
        match self.phase {
            SegPhase::Idle => Ok(()),
            _ => {
                self.reset();
                Err(ProtocolError::Timeout)
            },
        }
    }

    /// Abandon any transfer in progress and return to idle, as a caller
    /// cancelling a send does.
    pub fn abort(&mut self)
        requires
            old(self).wf(),
        ensures
            final(self).wf(),
            same_config(final(self)@, old(self)@),
            final(self)@.phase is Idle,
    {
        self.reset();
    }

    /// Drop the transfer state, keeping the configuration.
    fn reset(&mut self)
        ensures
            final(self)@ == seg_reset(old(self)@),
            final(self)@.phase is Idle,
    {
        self.phase = SegPhase::Idle;
        self.msg = Vec::new();
        self.offset = 0;
        self.next_seq = 0;
        self.block_size = 0;
        self.frames_in_block = 0;
        self.wait_count = 0;
    }
}

/// How many bytes the next Consecutive Frame takes: a full frame, or
/// what remains of the message.
pub open spec fn cf_take(len: int, offset: int, ext: bool) -> int {
    if len - offset < cf_capacity(ext) {
        len - offset
    } else {
        cf_capacity(ext) as int
    }
}

} // verus!
