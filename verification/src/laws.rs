//! The protocol laws, proved over the codec, segmentation and
//! reassembly models: the round trip of segmenting and reassembling,
//! when a Single Frame is used, how sequence numbers cycle, and how
//! block-size and wait-frame pacing behave.

use vstd::prelude::*;

use crate::codec::cf_capacity;
use crate::codec::ff_capacity;
use crate::codec::lemma_decode_encode;
use crate::codec::loopback_options;
use crate::codec::sf_capacity;
use crate::codec::spec_decode;
use crate::codec::spec_encode;
use crate::codec::spec_tx_ext;
use crate::codec::FlowStatus;
use crate::codec::PduV;
use crate::codec::MAX_12BIT_LEN;
use crate::errors::ProtocolError;
use crate::options::IsoTpOptionsV;
use crate::reassembly::spec_feed;
use crate::reassembly::ReasmStateV;
use crate::reassembly::RxEventV;
use crate::segment::cf_take;
use crate::segment::seg_fc_step;
use crate::segment::seg_next_step;
use crate::segment::seg_wf;
use crate::segment::spec_cf_seq;
use crate::segment::spec_segment;
use crate::segment::SegPhase;
use crate::segment::SegmenterV;
use crate::segment::MAX_MSG_LEN;

verus! {

/// Feeding `pdus` to a reassembler in state `s`, every frame is
/// consumed without failure, the last one completes the message `msg`,
/// and the reassembler ends idle.
pub open spec fn feeds_clean_to(s: ReasmStateV, max_len: u32, pdus: Seq<PduV>, msg: Seq<u8>) -> bool
    decreases pdus.len(),
{
    if pdus.len() == 0 {
        false
    } else {
        let step = spec_feed(s, max_len, pdus[0]);
        if pdus.len() == 1 {
            step.1 == Ok::<RxEventV, ProtocolError>(RxEventV::Complete { message: msg })
                && step.0 is Idle
        } else {
            step.1 is Ok && feeds_clean_to(step.0, max_len, pdus.drop_first(), msg)
        }
    }
}

/// The Consecutive Frames of `msg` from `offset` on, fed to a
/// reassembler that expects sequence number `seqno` and holds the first
/// `offset` bytes, complete the message cleanly.
proof fn lemma_cf_feed(msg: Seq<u8>, ext: bool, max_len: u32, offset: int, seqno: u8)
    requires
        msg.len() <= MAX_MSG_LEN,
        0 <= offset < msg.len(),
        seqno < 16,
    ensures
        feeds_clean_to(
            ReasmStateV::Receiving {
                expected_seq: seqno,
                total_len: msg.len() as u32,
                buf: msg.take(offset),
            },
            max_len,
            spec_cf_seq(msg, ext, offset, seqno),
            msg,
        ),
    decreases msg.len() - offset,
{
    let s = ReasmStateV::Receiving {
        expected_seq: seqno,
        total_len: msg.len() as u32,
        buf: msg.take(offset),
    };
    let pdus = spec_cf_seq(msg, ext, offset, seqno);
    let take = cf_take(msg.len() as int, offset, ext);
    let head = PduV::Consecutive { seq: seqno, data: msg.subrange(offset, offset + take) };
    assert(pdus == seq![head] + spec_cf_seq(msg, ext, offset + take, ((seqno + 1) % 16) as u8));
    let step = spec_feed(s, max_len, head);
    assert(msg.subrange(offset, offset + take).take(take) =~= msg.subrange(offset, offset + take));
    assert(msg.take(offset) + msg.subrange(offset, offset + take) =~= msg.take(offset + take));
    if offset + take == msg.len() {
        assert(msg.take(offset + take) =~= msg);
        assert(spec_cf_seq(msg, ext, offset + take, ((seqno + 1) % 16) as u8) =~= Seq::<
            PduV,
        >::empty());
        assert(pdus.len() == 1);
        assert(step.1 == Ok::<RxEventV, ProtocolError>(RxEventV::Complete { message: msg }));
    } else {
        let nseq = ((seqno + 1) % 16) as u8;
        assert(step.0 == ReasmStateV::Receiving {
            expected_seq: nseq,
            total_len: msg.len() as u32,
            buf: msg.take(offset + take),
        });
        lemma_cf_feed(msg, ext, max_len, offset + take, nseq);
        assert(pdus.drop_first() =~= spec_cf_seq(msg, ext, offset + take, nseq));
        assert(pdus.len() > 1);
    }
}

/// Round trip: for any message within the receive capacity, feeding its
/// canonical frame sequence — as an ideal lossless, in-order transport
/// with immediate `ContinueToSend` flow control delivers it — to an
/// idle reassembler consumes every frame without failure and completes
/// exactly the original bytes.
pub proof fn lemma_segment_reassemble(msg: Seq<u8>, ext: bool, max_len: u32)
    requires
        msg.len() <= max_len,
    ensures
        feeds_clean_to(ReasmStateV::Idle, max_len, spec_segment(msg, ext), msg),
{
    let pdus = spec_segment(msg, ext);
    if msg.len() <= sf_capacity(ext) {
        assert(pdus.len() == 1);
        assert(spec_feed(ReasmStateV::Idle, max_len, pdus[0]).1 == Ok::<
            RxEventV,
            ProtocolError,
        >(RxEventV::Complete { message: msg }));
    } else {
        let ffcap = ff_capacity(ext, msg.len() > MAX_12BIT_LEN) as int;
        let head = PduV::First { total_len: msg.len() as u32, data: msg.take(ffcap) };
        assert(pdus == seq![head] + spec_cf_seq(msg, ext, ffcap, 1));
        let step = spec_feed(ReasmStateV::Idle, max_len, head);
        assert(step.0 == ReasmStateV::Receiving {
            expected_seq: 1,
            total_len: msg.len() as u32,
            buf: msg.take(ffcap),
        });
        lemma_cf_feed(msg, ext, max_len, ffcap, 1);
        assert(pdus.drop_first() =~= spec_cf_seq(msg, ext, ffcap, 1));
        assert(pdus.len() > 1);
    }
}

/// The raw CAN payloads of a sequence of PDUs under the given options.
pub open spec fn spec_encode_all(pdus: Seq<PduV>, o: IsoTpOptionsV) -> Seq<Seq<u8>> {
    pdus.map_values(|p: PduV| spec_encode(p, o))
}

/// Decoding and feeding `frames` to a reassembler in state `s`, every
/// payload decodes, every frame is consumed without failure, the last
/// one completes the message `msg`, and the reassembler ends idle.
pub open spec fn wire_feeds_clean_to(
    s: ReasmStateV,
    max_len: u32,
    frames: Seq<Seq<u8>>,
    o: IsoTpOptionsV,
    msg: Seq<u8>,
) -> bool
    decreases frames.len(),
{
    if frames.len() == 0 {
        false
    } else {
        spec_decode(frames[0], o) matches Ok(p) && {
            let step = spec_feed(s, max_len, p);
            if frames.len() == 1 {
                step.1 == Ok::<RxEventV, ProtocolError>(RxEventV::Complete { message: msg })
                    && step.0 is Idle
            } else {
                step.1 is Ok && wire_feeds_clean_to(step.0, max_len, frames.drop_first(), o, msg)
            }
        }
    }
}

/// The encoded Consecutive Frames of `msg` from `offset` on, decoded
/// and fed to a reassembler that expects sequence number `seqno` and
/// holds the first `offset` bytes, complete the message cleanly. The
/// padding a frame may carry past its data is trimmed by the announced
/// total length.
proof fn lemma_cf_feed_wire(msg: Seq<u8>, o: IsoTpOptionsV, max_len: u32, offset: int, seqno: u8)
    requires
        msg.len() <= MAX_MSG_LEN,
        0 <= offset < msg.len(),
        seqno < 16,
        loopback_options(o),
    ensures
        wire_feeds_clean_to(
            ReasmStateV::Receiving {
                expected_seq: seqno,
                total_len: msg.len() as u32,
                buf: msg.take(offset),
            },
            max_len,
            spec_encode_all(spec_cf_seq(msg, spec_tx_ext(o), offset, seqno), o),
            o,
            msg,
        ),
    decreases msg.len() - offset,
{
    let ext = spec_tx_ext(o);
    let s = ReasmStateV::Receiving {
        expected_seq: seqno,
        total_len: msg.len() as u32,
        buf: msg.take(offset),
    };
    let take = cf_take(msg.len() as int, offset, ext);
    let head = PduV::Consecutive { seq: seqno, data: msg.subrange(offset, offset + take) };
    let nseq = ((seqno + 1) % 16) as u8;
    assert(spec_cf_seq(msg, ext, offset, seqno) == seq![head] + spec_cf_seq(
        msg,
        ext,
        offset + take,
        nseq,
    ));
    let frames = spec_encode_all(spec_cf_seq(msg, ext, offset, seqno), o);
    assert(frames[0] == spec_encode(head, o));
    lemma_decode_encode(head, o);
    let decoded = spec_decode(frames[0], o)->Ok_0;
    let d2 = decoded->Consecutive_data;
    assert(take <= cf_capacity(ext));
    assert(head->Consecutive_data.len() == take);
    // the feed takes exactly the original data, whatever padding follows
    let need = msg.len() - offset;
    let fed = if d2.len() < need {
        d2.len() as int
    } else {
        need
    };
    assert(fed == take);
    assert(d2.take(take) == msg.subrange(offset, offset + take));
    let step = spec_feed(s, max_len, decoded);
    assert(msg.take(offset) + d2.take(take) =~= msg.take(offset + take));
    if offset + take == msg.len() {
        assert(msg.take(offset + take) =~= msg);
        assert(spec_cf_seq(msg, ext, offset + take, nseq) =~= Seq::<PduV>::empty());
        assert(frames.len() == 1);
        assert(step.1 == Ok::<RxEventV, ProtocolError>(RxEventV::Complete { message: msg }));
    } else {
        assert(step.0 == ReasmStateV::Receiving {
            expected_seq: nseq,
            total_len: msg.len() as u32,
            buf: msg.take(offset + take),
        });
        lemma_cf_feed_wire(msg, o, max_len, offset + take, nseq);
        assert(frames.drop_first() =~= spec_encode_all(
            spec_cf_seq(msg, ext, offset + take, nseq),
            o,
        ));
        assert(frames.len() > 1);
    }
}

/// Round trip on the wire: for any message within the receive
/// capacity, encoding its canonical frame sequence to raw CAN payloads,
/// then decoding and feeding them to an idle reassembler under the same
/// options, consumes every frame without failure and completes exactly
/// the original bytes.
pub proof fn lemma_wire_round_trip(msg: Seq<u8>, o: IsoTpOptionsV, max_len: u32)
    requires
        msg.len() <= max_len,
        loopback_options(o),
    ensures
        wire_feeds_clean_to(
            ReasmStateV::Idle,
            max_len,
            spec_encode_all(spec_segment(msg, spec_tx_ext(o)), o),
            o,
            msg,
        ),
{
    let ext = spec_tx_ext(o);
    let frames = spec_encode_all(spec_segment(msg, ext), o);
    if msg.len() <= sf_capacity(ext) {
        let head = PduV::Single { data: msg };
        assert(frames.len() == 1);
        assert(frames[0] == spec_encode(head, o));
        lemma_decode_encode(head, o);
        assert(spec_feed(ReasmStateV::Idle, max_len, head).1 == Ok::<
            RxEventV,
            ProtocolError,
        >(RxEventV::Complete { message: msg }));
    } else {
        let ffcap = ff_capacity(ext, msg.len() > MAX_12BIT_LEN) as int;
        let head = PduV::First { total_len: msg.len() as u32, data: msg.take(ffcap) };
        assert(spec_segment(msg, ext) == seq![head] + spec_cf_seq(msg, ext, ffcap, 1));
        assert(frames[0] == spec_encode(head, o));
        lemma_decode_encode(head, o);
        let step = spec_feed(ReasmStateV::Idle, max_len, head);
        assert(step.0 == ReasmStateV::Receiving {
            expected_seq: 1,
            total_len: msg.len() as u32,
            buf: msg.take(ffcap),
        });
        lemma_cf_feed_wire(msg, o, max_len, ffcap, 1);
        assert(frames.drop_first() =~= spec_encode_all(spec_cf_seq(msg, ext, ffcap, 1), o));
        assert(frames.len() > 1);
    }
}

/// Every frame of the Consecutive Frame sequence is a Consecutive
/// Frame.
proof fn lemma_cf_seq_all_consecutive(msg: Seq<u8>, ext: bool, offset: int, seqno: u8)
    ensures
        forall|i: int|
            0 <= i < spec_cf_seq(msg, ext, offset, seqno).len() ==> spec_cf_seq(
                msg,
                ext,
                offset,
                seqno,
            )[i] is Consecutive,
    decreases msg.len() - offset,
{
    if 0 <= offset < msg.len() {
        let take = cf_take(msg.len() as int, offset, ext);
        lemma_cf_seq_all_consecutive(msg, ext, offset + take, ((seqno + 1) % 16) as u8);
    }
}

/// A Single Frame is used exactly when the message fits one frame;
/// otherwise the sequence opens with a First Frame announcing the
/// length, followed only by Consecutive Frames.
pub proof fn lemma_single_frame_iff(msg: Seq<u8>, ext: bool)
    requires
        msg.len() <= MAX_MSG_LEN,
    ensures
        msg.len() <= sf_capacity(ext) ==> spec_segment(msg, ext) == seq![
            PduV::Single { data: msg },
        ],
        msg.len() > sf_capacity(ext) ==> !(spec_segment(msg, ext)[0] is Single) && (spec_segment(
            msg,
            ext,
        )[0] matches PduV::First { total_len, data } && total_len == msg.len()) && spec_segment(
            msg,
            ext,
        ).len() >= 2,
        msg.len() > sf_capacity(ext) ==> forall|i: int|
            1 <= i < spec_segment(msg, ext).len() ==> spec_segment(msg, ext)[i] is Consecutive,
{
    if msg.len() > sf_capacity(ext) {
        let ffcap = ff_capacity(ext, msg.len() > MAX_12BIT_LEN) as int;
        lemma_cf_seq_all_consecutive(msg, ext, ffcap, 1);
        assert(spec_cf_seq(msg, ext, ffcap, 1).len() >= 1);
    }
}

/// The sequence numbers of the Consecutive Frame sequence cycle modulo
/// 16 from their starting number.
proof fn lemma_cf_seq_numbering(msg: Seq<u8>, ext: bool, offset: int, seqno: u8, i: int)
    requires
        0 <= offset,
        seqno < 16,
        0 <= i < spec_cf_seq(msg, ext, offset, seqno).len(),
    ensures
        spec_cf_seq(msg, ext, offset, seqno)[i] matches PduV::Consecutive { seq, .. } && seq == (
        seqno + i) % 16,
    decreases i,
{
    if i == 0 {
        vstd::arithmetic::div_mod::lemma_small_mod(seqno as nat, 16);
    } else {
        let take = cf_take(msg.len() as int, offset, ext);
        let nseq = ((seqno + 1) % 16) as u8;
        lemma_cf_seq_numbering(msg, ext, offset + take, nseq, i - 1);
        let a = seqno + 1;
        let b = i - 1;
        vstd::arithmetic::div_mod::lemma_add_mod_noop_right(a % 16, b, 16);
        vstd::arithmetic::div_mod::lemma_add_mod_noop(a, b, 16);
        vstd::arithmetic::div_mod::lemma_mod_twice(a, 16);
        assert((a % 16 + b) % 16 == (seqno + i) % 16);
    }
}

/// Consecutive Frame sequence numbers cycle 1, 2, ..., 15, 0, 1, ...
/// whatever the message length: the frame at position `i` of the
/// canonical sequence carries sequence number `i % 16`.
pub proof fn lemma_seq_numbers_cycle(msg: Seq<u8>, ext: bool, i: int)
    requires
        msg.len() > sf_capacity(ext),
        1 <= i < spec_segment(msg, ext).len(),
    ensures
        spec_segment(msg, ext)[i] matches PduV::Consecutive { seq, .. } && seq == i % 16,
{
    let ffcap = ff_capacity(ext, msg.len() > MAX_12BIT_LEN) as int;
    lemma_cf_seq_numbering(msg, ext, ffcap, 1, i - 1);
}

/// A reassembler in the middle of a message, fed a Consecutive Frame
/// whose sequence number is not the expected one, fails with a
/// `Sequence` error and discards the partial buffer, returning to idle.
pub proof fn lemma_sequence_mismatch(s: ReasmStateV, max_len: u32, seq: u8, data: Seq<u8>)
    requires
        s matches ReasmStateV::Receiving { expected_seq, .. } && seq != expected_seq,
    ensures
        spec_feed(s, max_len, PduV::Consecutive { seq, data }).0 is Idle,
        s matches ReasmStateV::Receiving { expected_seq, .. } ==> spec_feed(
            s,
            max_len,
            PduV::Consecutive { seq, data },
        ).1 == Err::<RxEventV, ProtocolError>(
            ProtocolError::Sequence { expected: expected_seq, received: seq },
        ),
{
}

/// A `ContinueToSend` grant with block size 2 lets exactly two
/// Consecutive Frames out before the engine awaits flow control again,
/// as long as more of the message remains.
pub proof fn lemma_block_size_two(v: SegmenterV, st_min: u8)
    requires
        seg_wf(v),
        v.phase is AwaitFlowControl,
        v.msg.len() - v.offset > 2 * cf_capacity(v.ext),
    ensures
        ({
            let v1 = seg_fc_step(v, FlowStatus::ContinueToSend, 2, st_min).0;
            let v2 = seg_next_step(v1).0;
            let v3 = seg_next_step(v2).0;
            &&& v1.phase is Sending
            &&& v2.phase is Sending
            &&& v3.phase is AwaitFlowControl
        }),
{
}

/// Each Consecutive Frame the transmit engine produces is the head of
/// the canonical remainder of its message, and the state it leaves
/// behind carries exactly the tail — so over any schedule of grants,
/// the frames come out in canonical order; and a Flow Control grant
/// does not move the remainder.
pub proof fn lemma_next_frame_canonical(v: SegmenterV, block_size: u8, st_min: u8)
    requires
        seg_wf(v),
        !(v.phase is Idle),
    ensures
        v.phase is Sending ==> ({
            let step = seg_next_step(v);
            spec_cf_seq(v.msg, v.ext, v.offset, v.next_seq) == seq![step.1] + spec_cf_seq(
                step.0.msg,
                step.0.ext,
                step.0.offset,
                step.0.next_seq,
            )
        }),
        ({
            let granted = seg_fc_step(v, FlowStatus::ContinueToSend, block_size, st_min).0;
            spec_cf_seq(granted.msg, granted.ext, granted.offset, granted.next_seq) == spec_cf_seq(
                v.msg,
                v.ext,
                v.offset,
                v.next_seq,
            )
        }),
{
}

/// The transmit state after `n` consecutive `Wait` status frames, or
/// the failure the one that went too far produced.
pub open spec fn seg_after_waits(v: SegmenterV, n: nat) -> (SegmenterV, Result<(), ProtocolError>)
    decreases n,
{
    if n == 0 {
        (v, Ok(()))
    } else {
        let prev = seg_after_waits(v, (n - 1) as nat);
        if prev.1 is Err {
            prev
        } else {
            seg_fc_step(prev.0, FlowStatus::Wait, 0, 0)
        }
    }
}

/// Up to `wftmax` consecutive `Wait` status frames leave the engine
/// waiting, and a `ContinueToSend` then still succeeds; the
/// `wftmax + 1`-th consecutive `Wait` fails the transfer with
/// `TooManyWaitFrames`.
pub proof fn lemma_wait_frames(v: SegmenterV, n: nat, block_size: u8, st_min: u8)
    requires
        seg_wf(v),
        v.phase is AwaitFlowControl,
        v.wait_count == 0,
    ensures
        n <= v.wftmax ==> ({
            let w = seg_after_waits(v, n);
            &&& w.1 is Ok
            &&& w.0 == (SegmenterV { wait_count: n as u8, ..v })
            &&& w.0.phase is AwaitFlowControl
            &&& w.0.wait_count == n
            &&& seg_fc_step(w.0, FlowStatus::ContinueToSend, block_size, st_min).1 is Ok
            &&& seg_fc_step(w.0, FlowStatus::ContinueToSend, block_size, st_min).0.phase
                is Sending
        }),
        n == v.wftmax + 1 ==> seg_after_waits(v, n).1 == Err::<(), ProtocolError>(
            ProtocolError::TooManyWaitFrames,
        ),
    decreases n,
{
    if n > 0 {
        lemma_wait_frames(v, (n - 1) as nat, block_size, st_min);
    }
}

} // verus!
