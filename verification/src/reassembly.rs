//! Reassembly engine: consumes the decoded PDUs of one session and
//! rebuilds the logical message, tracking the expected sequence number
//! and the announced total length.
//!
//! The state machine is `Idle -> Receiving -> Idle`: a Single Frame
//! completes a message immediately, a First Frame opens a segmented
//! message, each matching Consecutive Frame extends it, and any failure
//! discards the partial message and returns to `Idle`.

use vstd::prelude::*;

use crate::codec::pdu_rx_wf;
use crate::codec::spec_decode;
use crate::codec::Pdu;
use crate::codec::PduV;
use crate::errors::FrameError;
use crate::errors::ProtocolError;
use crate::options::IsoTpOptions;

verus! {

/// The reassembly position: idle, or inside a segmented message with
/// the sequence number expected next, the announced total length and
/// the bytes received so far.
pub enum ReasmStateV {
    Idle,
    Receiving { expected_seq: u8, total_len: u32, buf: Seq<u8> },
}

/// The mathematical shape of a `Reassembler`.
pub struct ReassemblerV {
    pub state: ReasmStateV,
    pub max_len: u32,
}

/// What one accepted frame did to the inbound message.
#[derive(PartialEq, Eq, Debug)]
pub enum RxEvent {
    /// The message is complete; the accumulated bytes are delivered.
    Complete { message: Vec<u8> },
    /// A First Frame opened a segmented message; unless the session is
    /// listen-only, a Flow Control frame is now owed to the sender.
    Started,
    /// A Consecutive Frame was consumed and more are expected.
    Accepted,
}

/// The mathematical shape of an `RxEvent`.
pub enum RxEventV {
    Complete { message: Seq<u8> },
    Started,
    Accepted,
}

impl View for RxEvent {
    type V = RxEventV;

    open spec fn view(&self) -> RxEventV {
        match self {
            RxEvent::Complete { message } => RxEventV::Complete { message: message@ },
            RxEvent::Started => RxEventV::Started,
            RxEvent::Accepted => RxEventV::Accepted,
        }
    }
}

/// The mathematical shape of a feed result.
pub open spec fn rx_result_view(r: Result<RxEvent, ProtocolError>) -> Result<
    RxEventV,
    ProtocolError,
> {
    match r {
        Ok(e) => Ok(e@),
        Err(e) => Err(e),
    }
}

/// The mathematical shape of a frame-feed result.
pub open spec fn frame_result_view(r: Result<RxEvent, FrameError>) -> Result<
    RxEventV,
    FrameError,
> {
    match r {
        Ok(e) => Ok(e@),
        Err(e) => Err(e),
    }
}

/// A reassembly state the engine can actually be in: a sequence number
/// below 16, fewer bytes than announced, and an announcement within the
/// receive capacity.
pub open spec fn state_wf(s: ReasmStateV, max_len: u32) -> bool {
    match s {
        ReasmStateV::Idle => true,
        ReasmStateV::Receiving { expected_seq, total_len, buf } => expected_seq < 16 && buf.len()
            < total_len && total_len <= max_len,
    }
}

/// What one PDU does to the reassembly state: the state after the frame
/// and the event or failure it produces.
///
/// A Single or First Frame always starts over, discarding any partial
/// message (last First Frame wins). A First Frame announcing more than
/// `max_len` bytes fails with `ReceiverOverflow`. A Consecutive Frame
/// must carry the expected sequence number, else the partial message is
/// discarded with a `Sequence` failure; its data extends the buffer,
/// trimmed to the announced total length, and completes the message
/// when the announced length is reached. A Consecutive or Flow Control
/// frame with no message in progress is `UnexpectedPdu`.
pub open spec fn spec_feed(s: ReasmStateV, max_len: u32, p: PduV) -> (ReasmStateV, Result<
    RxEventV,
    ProtocolError,
>) {
    match p {
        PduV::Single { data } => (
            ReasmStateV::Idle,
            Ok(RxEventV::Complete { message: data }),
        ),
        PduV::First { total_len, data } => {
            if total_len > max_len {
                (ReasmStateV::Idle, Err(ProtocolError::ReceiverOverflow))
            } else {
                (
                    ReasmStateV::Receiving { expected_seq: 1, total_len, buf: data },
                    Ok(RxEventV::Started),
                )
            }
        },
        PduV::Consecutive { seq, data } => match s {
            ReasmStateV::Idle => (s, Err(ProtocolError::UnexpectedPdu)),
            ReasmStateV::Receiving { expected_seq, total_len, buf } => {
                if seq != expected_seq {
                    (
                        ReasmStateV::Idle,
                        Err(ProtocolError::Sequence { expected: expected_seq, received: seq }),
                    )
                } else {
                    let need = total_len - buf.len();
                    let take = if data.len() < need {
                        data.len() as int
                    } else {
                        need
                    };
                    let nbuf = buf + data.take(take);
                    if nbuf.len() == total_len {
                        (ReasmStateV::Idle, Ok(RxEventV::Complete { message: nbuf }))
                    } else {
                        (
                            ReasmStateV::Receiving {
                                expected_seq: ((expected_seq + 1) % 16) as u8,
                                total_len,
                                buf: nbuf,
                            },
                            Ok(RxEventV::Accepted),
                        )
                    }
                }
            },
        },
        PduV::FlowControl { .. } => (s, Err(ProtocolError::UnexpectedPdu)),
    }
}

/// Append the first `n` bytes of `data` to `v`.
fn push_upto(v: &mut Vec<u8>, data: &Vec<u8>, n: usize)
    requires
        n <= data@.len(),
    ensures
        final(v)@ == old(v)@ + data@.take(n as int),
{
    let ghost base = v@;
    proof {
        assert(base + data@.take(0) =~= base);
    }
    for i in 0..n
        invariant
            n <= data@.len(),
            v@ == base + data@.take(i as int),
    {
        v.push(data[i]);
        proof {
            assert(v@ =~= base + data@.take(i + 1));
        }
    }
}

/// The reassembly engine of one session: at most one inbound message at
/// a time.
pub struct Reassembler {
    /// Whether a segmented message is in progress.
    receiving: bool,
    /// The sequence number expected on the next Consecutive Frame.
    expected_seq: u8,
    /// The announced length of the message in progress.
    total_len: u32,
    /// The bytes received so far.
    buf: Vec<u8>,
    /// The receive capacity: a First Frame announcing more fails.
    max_len: u32,
}

impl View for Reassembler {
    type V = ReassemblerV;

    closed spec fn view(&self) -> ReassemblerV {
        ReassemblerV {
            state: if self.receiving {
                ReasmStateV::Receiving {
                    expected_seq: self.expected_seq,
                    total_len: self.total_len,
                    buf: self.buf@,
                }
            } else {
                ReasmStateV::Idle
            },
            max_len: self.max_len,
        }
    }
}

impl Reassembler {
    /// A reassembly state the engine can actually be in.
    pub open spec fn wf(&self) -> bool {
        state_wf(self@.state, self@.max_len)
    }

    /// A fresh, idle engine that accepts messages up to `max_len` bytes.
    pub fn new(max_len: u32) -> (r: Reassembler)
        ensures
            r@.state is Idle,
            r@.max_len == max_len,
            r.wf(),
    {
        Reassembler { receiving: false, expected_seq: 0, total_len: 0, buf: Vec::new(), max_len }
    }

    /// True when no message is in progress.
    pub fn is_idle(&self) -> (r: bool)
        ensures
            r == (self@.state is Idle),
    {
        !self.receiving
    }

    /// Consume one decoded PDU, as `spec_feed` states.
    pub fn feed(&mut self, pdu: Pdu) -> (r: Result<RxEvent, ProtocolError>)
        requires
            old(self).wf(),
            pdu_rx_wf(pdu@),
        ensures
            final(self).wf(),
            final(self)@.max_len == old(self)@.max_len,
            final(self)@.state == spec_feed(old(self)@.state, old(self)@.max_len, pdu@).0,
            rx_result_view(r) == spec_feed(old(self)@.state, old(self)@.max_len, pdu@).1,
    {
        match pdu {
            Pdu::Single { data } => {
                self.receiving = false;
                self.buf.clear();
                Ok(RxEvent::Complete { message: data })
            },
            Pdu::First { total_len, data } => {
                if total_len > self.max_len {
                    self.receiving = false;
                    self.buf.clear();
                    Err(ProtocolError::ReceiverOverflow)
                } else {
                    self.receiving = true;
                    self.expected_seq = 1;
                    self.total_len = total_len;
                    self.buf = data;
                    Ok(RxEvent::Started)
                }
            },
            Pdu::Consecutive { seq, data } => {
                if !self.receiving {
                    Err(ProtocolError::UnexpectedPdu)
                } else if seq != self.expected_seq {
                    let expected = self.expected_seq;
                    self.receiving = false;
                    self.buf.clear();
                    Err(ProtocolError::Sequence { expected, received: seq })
                } else {
                    let need: usize = (self.total_len as usize) - self.buf.len();
                    let take = if data.len() < need {
                        data.len()
                    } else {
                        need
                    };
                    push_upto(&mut self.buf, &data, take);
                    if self.buf.len() == self.total_len as usize {
                        self.receiving = false;
                        let mut message: Vec<u8> = Vec::new();
                        core::mem::swap(&mut message, &mut self.buf);
                        Ok(RxEvent::Complete { message })
                    } else {
                        self.expected_seq = (self.expected_seq + 1) % 16;
                        Ok(RxEvent::Accepted)
                    }
                }
            },
            Pdu::FlowControl { .. } => Err(ProtocolError::UnexpectedPdu),
        }
    }

    /// Decode one raw CAN payload under the given options and consume
    /// it: the inbound half of a session, one frame at a time. A
    /// payload the codec rejects leaves the state untouched; an
    /// accepted PDU moves the state as `spec_feed` states, with a
    /// protocol failure resetting it.
    pub fn feed_frame(&mut self, frame: &[u8], opts: &IsoTpOptions) -> (r: Result<
        RxEvent,
        FrameError,
    >)
        requires
            old(self).wf(),
        ensures
            final(self).wf(),
            final(self)@.max_len == old(self)@.max_len,
            spec_decode(frame@, opts@) matches Err(e) ==> r == Err::<RxEvent, FrameError>(
                FrameError::Decode(e),
            ) && final(self)@ == old(self)@,
            spec_decode(frame@, opts@) matches Ok(p) ==> {
                let step = spec_feed(old(self)@.state, old(self)@.max_len, p);
                &&& final(self)@.state == step.0
                &&& (step.1 matches Ok(ev) ==> frame_result_view(r) == Ok::<RxEventV, FrameError>(
                    ev,
                ))
                &&& (step.1 matches Err(pe) ==> r == Err::<RxEvent, FrameError>(
                    FrameError::Protocol(pe),
                ))
            },
    {
        match crate::codec::decode(frame, opts) {
            Err(e) => Err(FrameError::Decode(e)),
            Ok(p) => {
                proof {
                    crate::codec::lemma_spec_decode_rx_wf(frame@, opts@);
                }
                match self.feed(p) {
                    Ok(ev) => Ok(ev),
                    Err(pe) => Err(FrameError::Protocol(pe)),
                }
            },
        }
    }

    /// The receive timeout expired. A message in progress is discarded
    /// with a `Timeout` failure; when idle, nothing happens.
    pub fn on_timeout(&mut self) -> (r: Result<(), ProtocolError>)
        requires
            old(self).wf(),
        ensures
            final(self).wf(),
            final(self)@.max_len == old(self)@.max_len,
            final(self)@.state is Idle,
            r == (if old(self)@.state is Idle {
                Ok::<(), ProtocolError>(())
            } else {
                Err::<(), ProtocolError>(ProtocolError::Timeout)
            }),
    {
        if self.receiving {
            self.receiving = false;
            self.buf.clear();
            Err(ProtocolError::Timeout)
        } else {
            Ok(())
        }
    }

    /// Abandon any message in progress and return to idle, as a caller
    /// cancelling a receive does.
    pub fn abort(&mut self)
        requires
            old(self).wf(),
        ensures
            final(self).wf(),
            final(self)@.max_len == old(self)@.max_len,
            final(self)@.state is Idle,
    {
        self.receiving = false;
        self.buf.clear();
    }
}

} // verus!
