use socketcan_isotp::codec::decode;
use socketcan_isotp::codec::encode;
use socketcan_isotp::options::CAN_ISOTP_LISTEN_MODE;
use socketcan_isotp::options::CAN_ISOTP_TX_PADDING;
use socketcan_isotp::segment_message;
use socketcan_isotp::DecodeError;
use socketcan_isotp::Duration;
use socketcan_isotp::FrameError;
use socketcan_isotp::FlowControlCoordinator;
use socketcan_isotp::FlowControlOptions;
use socketcan_isotp::FlowStatus;
use socketcan_isotp::IsoTpBehaviour;
use socketcan_isotp::IsoTpOptions;
use socketcan_isotp::Pdu;
use socketcan_isotp::ProtocolError;
use socketcan_isotp::Reassembler;
use socketcan_isotp::RxEvent;
use socketcan_isotp::SegPhase;
use socketcan_isotp::Segmenter;

#[test]
fn single_frame_completes_immediately() {
    let mut rx = Reassembler::new(4096);
    let r = rx.feed(Pdu::Single { data: vec![0x22, 0xF1, 0x89] }).unwrap();
    assert_eq!(r, RxEvent::Complete { message: vec![0x22, 0xF1, 0x89] });
    assert!(rx.is_idle());
}

#[test]
fn ten_byte_message_reassembles() {
    let mut rx = Reassembler::new(4096);
    let r = rx.feed(Pdu::First { total_len: 10, data: vec![0, 1, 2, 3, 4, 5] }).unwrap();
    assert_eq!(r, RxEvent::Started);
    let r = rx.feed(Pdu::Consecutive { seq: 1, data: vec![6, 7, 8, 9] }).unwrap();
    assert_eq!(r, RxEvent::Complete { message: vec![0, 1, 2, 3, 4, 5, 6, 7, 8, 9] });
    assert!(rx.is_idle());
}

#[test]
fn padded_last_frame_is_trimmed() {
    let mut rx = Reassembler::new(4096);
    rx.feed(Pdu::First { total_len: 10, data: vec![0, 1, 2, 3, 4, 5] }).unwrap();
    // a padded Consecutive Frame carries the fill bytes as data
    let r = rx.feed(Pdu::Consecutive { seq: 1, data: vec![6, 7, 8, 9, 0xCC, 0xCC, 0xCC] }).unwrap();
    assert_eq!(r, RxEvent::Complete { message: vec![0, 1, 2, 3, 4, 5, 6, 7, 8, 9] });
}

#[test]
fn wrong_sequence_number_discards_message() {
    let mut rx = Reassembler::new(4096);
    rx.feed(Pdu::First { total_len: 20, data: vec![0; 6] }).unwrap();
    let r = rx.feed(Pdu::Consecutive { seq: 3, data: vec![1; 7] });
    assert_eq!(r, Err(ProtocolError::Sequence { expected: 1, received: 3 }));
    assert!(rx.is_idle());
    // the partial message is gone: the next frame finds no transfer
    let r = rx.feed(Pdu::Consecutive { seq: 1, data: vec![1; 7] });
    assert_eq!(r, Err(ProtocolError::UnexpectedPdu));
}

#[test]
fn sequence_numbers_wrap_modulo_16() {
    // 150 bytes: First Frame takes 6, then 21 Consecutive Frames
    let msg: Vec<u8> = (0..150u8).collect();
    let mut rx = Reassembler::new(4096);
    rx.feed(Pdu::First { total_len: 150, data: msg[..6].to_vec() }).unwrap();
    let mut off = 6usize;
    let mut seq = 1u8;
    while off < msg.len() {
        let take = (msg.len() - off).min(7);
        let r = rx.feed(Pdu::Consecutive { seq, data: msg[off..off + take].to_vec() }).unwrap();
        off += take;
        if off == msg.len() {
            assert_eq!(r, RxEvent::Complete { message: msg.clone() });
        } else {
            assert_eq!(r, RxEvent::Accepted);
        }
        seq = (seq + 1) % 16;
    }
    // 21 frames: sequence numbers went 1..15, 0, 1..5
    assert_eq!(seq, 6);
}

#[test]
fn new_first_frame_wins() {
    let mut rx = Reassembler::new(4096);
    rx.feed(Pdu::First { total_len: 20, data: vec![9; 6] }).unwrap();
    // a fresh First Frame aborts the stale transfer
    rx.feed(Pdu::First { total_len: 10, data: vec![0, 1, 2, 3, 4, 5] }).unwrap();
    let r = rx.feed(Pdu::Consecutive { seq: 1, data: vec![6, 7, 8, 9] }).unwrap();
    assert_eq!(r, RxEvent::Complete { message: vec![0, 1, 2, 3, 4, 5, 6, 7, 8, 9] });
}

#[test]
fn receive_timeout_resets() {
    let mut rx = Reassembler::new(4096);
    rx.feed(Pdu::First { total_len: 20, data: vec![0; 6] }).unwrap();
    assert_eq!(rx.on_timeout(), Err(ProtocolError::Timeout));
    assert!(rx.is_idle());
    assert_eq!(rx.on_timeout(), Ok(()));
}

#[test]
fn oversized_announcement_overflows() {
    let mut rx = Reassembler::new(64);
    let r = rx.feed(Pdu::First { total_len: 100, data: vec![0; 6] });
    assert_eq!(r, Err(ProtocolError::ReceiverOverflow));
    assert!(rx.is_idle());
}

#[test]
fn unexpected_frames_are_refused() {
    let mut rx = Reassembler::new(4096);
    let r = rx.feed(Pdu::Consecutive { seq: 1, data: vec![1] });
    assert_eq!(r, Err(ProtocolError::UnexpectedPdu));
    let r = rx.feed(Pdu::FlowControl { status: FlowStatus::Wait, block_size: 0, st_min: 0 });
    assert_eq!(r, Err(ProtocolError::UnexpectedPdu));
}

#[test]
fn segmenting_respects_single_frame_boundary() {
    // 7 bytes fit a Single Frame; 8 need First/Consecutive framing
    let seven = segment_message(&(0..7u8).collect::<Vec<u8>>(), false);
    assert_eq!(seven.len(), 1);
    assert!(matches!(seven[0], Pdu::Single { .. }));
    let eight = segment_message(&(0..8u8).collect::<Vec<u8>>(), false);
    assert_eq!(eight.len(), 2);
    assert!(matches!(eight[0], Pdu::First { .. }));
    assert!(matches!(eight[1], Pdu::Consecutive { .. }));
    // with extended addressing the boundary drops to 6
    let seven_ext = segment_message(&(0..7u8).collect::<Vec<u8>>(), true);
    assert!(matches!(seven_ext[0], Pdu::First { .. }));
    let six_ext = segment_message(&(0..6u8).collect::<Vec<u8>>(), true);
    assert!(matches!(six_ext[0], Pdu::Single { .. }));
}

#[test]
fn ten_byte_message_segments_as_expected() {
    let msg: Vec<u8> = (0..10u8).collect();
    let pdus = segment_message(&msg, false);
    assert_eq!(pdus.len(), 2);
    assert_eq!(pdus[0], Pdu::First { total_len: 10, data: vec![0, 1, 2, 3, 4, 5] });
    assert_eq!(pdus[1], Pdu::Consecutive { seq: 1, data: vec![6, 7, 8, 9] });
}

#[test]
fn segment_sequence_numbers_cycle() {
    let msg: Vec<u8> = (0..200u16).map(|i| i as u8).collect();
    let pdus = segment_message(&msg, false);
    for (i, pdu) in pdus.iter().enumerate().skip(1) {
        match pdu {
            Pdu::Consecutive { seq, .. } => assert_eq!(*seq as usize, i % 16),
            _ => panic!("frame {} is not a Consecutive Frame", i),
        }
    }
}

#[test]
fn round_trip_through_reassembler() {
    for len in [0usize, 1, 6, 7, 8, 13, 62, 63, 64, 100, 4095] {
        let msg: Vec<u8> = (0..len).map(|i| (i * 7) as u8).collect();
        let pdus = segment_message(&msg, false);
        let mut rx = Reassembler::new(4096);
        let mut got = None;
        for pdu in pdus {
            match rx.feed(pdu).unwrap() {
                RxEvent::Complete { message } => got = Some(message),
                _ => {}
            }
        }
        assert_eq!(got.as_ref(), Some(&msg), "length {}", len);
    }
}

#[test]
fn round_trip_escape_length_message() {
    let msg: Vec<u8> = (0..5000usize).map(|i| (i % 251) as u8).collect();
    let pdus = segment_message(&msg, false);
    assert_eq!(pdus[0], Pdu::First { total_len: 5000, data: vec![msg[0], msg[1]] });
    let mut rx = Reassembler::new(8192);
    let mut got = None;
    for pdu in pdus {
        match rx.feed(pdu).unwrap() {
            RxEvent::Complete { message } => got = Some(message),
            _ => {}
        }
    }
    assert_eq!(got, Some(msg));
}

#[test]
fn round_trip_on_the_wire() {
    let opts = IsoTpOptions::new(
        IsoTpBehaviour::from_bits(CAN_ISOTP_TX_PADDING).unwrap(),
        Duration::from_nanos(0),
        0,
        0xCC,
        0xCC,
        0,
    )
    .unwrap();
    for len in [0usize, 3, 7, 8, 20, 100] {
        let msg: Vec<u8> = (0..len).map(|i| (i * 3 + 1) as u8).collect();
        let frames: Vec<Vec<u8>> = segment_message(&msg, false)
            .iter()
            .map(|p| encode(p, &opts))
            .collect();
        let mut rx = Reassembler::new(4096);
        let mut got = None;
        for frame in frames {
            let pdu = decode(&frame, &opts).unwrap();
            match rx.feed(pdu).unwrap() {
                RxEvent::Complete { message } => got = Some(message),
                _ => {}
            }
        }
        assert_eq!(got.as_ref(), Some(&msg), "length {}", len);
    }
}

#[test]
fn short_send_completes_at_once() {
    let mut tx = Segmenter::new(false, 0, None);
    let first = tx.start(vec![0x22, 0xF1, 0x89]);
    assert_eq!(first, Pdu::Single { data: vec![0x22, 0xF1, 0x89] });
    assert_eq!(tx.phase(), SegPhase::Idle);
}

#[test]
fn long_send_awaits_flow_control() {
    let mut tx = Segmenter::new(false, 0, None);
    let first = tx.start((0..10u8).collect::<Vec<u8>>());
    assert_eq!(first, Pdu::First { total_len: 10, data: vec![0, 1, 2, 3, 4, 5] });
    assert_eq!(tx.phase(), SegPhase::AwaitFlowControl);
    tx.handle_flow_control(FlowStatus::ContinueToSend, 0, 0).unwrap();
    assert_eq!(tx.phase(), SegPhase::Sending);
    let cf = tx.next_frame();
    assert_eq!(cf, Pdu::Consecutive { seq: 1, data: vec![6, 7, 8, 9] });
    assert_eq!(tx.phase(), SegPhase::Idle);
}

#[test]
fn block_size_two_pauses_after_two_frames() {
    let mut tx = Segmenter::new(false, 0, None);
    tx.start((0..40u8).collect::<Vec<u8>>());
    tx.handle_flow_control(FlowStatus::ContinueToSend, 2, 0).unwrap();
    assert_eq!(tx.phase(), SegPhase::Sending);
    tx.next_frame();
    assert_eq!(tx.phase(), SegPhase::Sending);
    tx.next_frame();
    // exactly two Consecutive Frames went out before the pause
    assert_eq!(tx.phase(), SegPhase::AwaitFlowControl);
    tx.handle_flow_control(FlowStatus::ContinueToSend, 2, 0).unwrap();
    tx.next_frame();
    tx.next_frame();
    assert_eq!(tx.phase(), SegPhase::AwaitFlowControl);
}

#[test]
fn wait_frames_beyond_wftmax_fail() {
    let mut tx = Segmenter::new(false, 2, None);
    tx.start((0..40u8).collect::<Vec<u8>>());
    assert_eq!(tx.handle_flow_control(FlowStatus::Wait, 0, 0), Ok(()));
    assert_eq!(tx.handle_flow_control(FlowStatus::Wait, 0, 0), Ok(()));
    // the third consecutive Wait exceeds wftmax = 2
    assert_eq!(
        tx.handle_flow_control(FlowStatus::Wait, 0, 0),
        Err(ProtocolError::TooManyWaitFrames)
    );
    assert_eq!(tx.phase(), SegPhase::Idle);
}

#[test]
fn wait_frames_within_wftmax_then_grant_succeeds() {
    let mut tx = Segmenter::new(false, 2, None);
    let msg: Vec<u8> = (0..10u8).collect();
    tx.start(msg);
    assert_eq!(tx.handle_flow_control(FlowStatus::Wait, 0, 0), Ok(()));
    assert_eq!(tx.handle_flow_control(FlowStatus::Wait, 0, 0), Ok(()));
    assert_eq!(tx.handle_flow_control(FlowStatus::ContinueToSend, 0, 0), Ok(()));
    assert_eq!(tx.phase(), SegPhase::Sending);
    let cf = tx.next_frame();
    assert_eq!(cf, Pdu::Consecutive { seq: 1, data: vec![6, 7, 8, 9] });
    assert_eq!(tx.phase(), SegPhase::Idle);
}

#[test]
fn grant_resets_wait_counter() {
    let mut tx = Segmenter::new(false, 1, None);
    tx.start((0..40u8).collect::<Vec<u8>>());
    assert_eq!(tx.handle_flow_control(FlowStatus::Wait, 0, 0), Ok(()));
    tx.handle_flow_control(FlowStatus::ContinueToSend, 1, 0).unwrap();
    tx.next_frame();
    assert_eq!(tx.phase(), SegPhase::AwaitFlowControl);
    // a fresh block tolerates wftmax consecutive Waits again
    assert_eq!(tx.handle_flow_control(FlowStatus::Wait, 0, 0), Ok(()));
    assert_eq!(
        tx.handle_flow_control(FlowStatus::Wait, 0, 0),
        Err(ProtocolError::TooManyWaitFrames)
    );
}

#[test]
fn overflow_status_aborts() {
    let mut tx = Segmenter::new(false, 0, None);
    tx.start((0..40u8).collect::<Vec<u8>>());
    assert_eq!(
        tx.handle_flow_control(FlowStatus::Overflow, 0, 0),
        Err(ProtocolError::ReceiverOverflow)
    );
    assert_eq!(tx.phase(), SegPhase::Idle);
}

#[test]
fn flow_control_timeout_resets_for_retry() {
    let mut tx = Segmenter::new(false, 0, None);
    let msg: Vec<u8> = (0..10u8).collect();
    tx.start(msg.clone());
    assert_eq!(tx.phase(), SegPhase::AwaitFlowControl);
    // no Flow Control frame arrived in time
    assert_eq!(tx.on_timeout(), Err(ProtocolError::Timeout));
    assert_eq!(tx.phase(), SegPhase::Idle);
    // the caller may restart the message from scratch
    let first = tx.start(msg);
    assert_eq!(first, Pdu::First { total_len: 10, data: vec![0, 1, 2, 3, 4, 5] });
    assert_eq!(tx.on_timeout(), Err(ProtocolError::Timeout));
    assert_eq!(tx.on_timeout(), Ok(()));
}

#[test]
fn forced_separation_time_overrides_grant() {
    let mut tx = Segmenter::new(false, 0, Some(0x10));
    tx.start((0..10u8).collect::<Vec<u8>>());
    tx.handle_flow_control(FlowStatus::ContinueToSend, 0, 0x7F).unwrap();
    assert_eq!(tx.st_min(), 0x10);
    let mut tx = Segmenter::new(false, 0, None);
    tx.start((0..10u8).collect::<Vec<u8>>());
    tx.handle_flow_control(FlowStatus::ContinueToSend, 0, 0x7F).unwrap();
    assert_eq!(tx.st_min(), 0x7F);
}

#[test]
fn paced_transfer_round_trip() {
    let msg: Vec<u8> = (0..77u8).collect();
    let mut tx = Segmenter::new(false, 0, None);
    let mut rx = Reassembler::new(4096);
    let mut got = None;
    let first = tx.start(msg.clone());
    rx.feed(first).unwrap();
    let mut grants = 0;
    while tx.phase() != SegPhase::Idle {
        if tx.phase() == SegPhase::AwaitFlowControl {
            tx.handle_flow_control(FlowStatus::ContinueToSend, 3, 0).unwrap();
            grants += 1;
        }
        while tx.phase() == SegPhase::Sending {
            match rx.feed(tx.next_frame()).unwrap() {
                RxEvent::Complete { message } => got = Some(message),
                _ => {}
            }
        }
    }
    // 71 bytes after the First Frame = 11 Consecutive Frames, in blocks of 3
    assert_eq!(grants, 4);
    assert_eq!(got, Some(msg));
}

#[test]
fn coordinator_grants_when_ready() {
    let mut fc = FlowControlCoordinator::new(&FlowControlOptions::new(4, 0x14, 2));
    let r = fc.respond(true, true);
    assert_eq!(
        r,
        Pdu::FlowControl { status: FlowStatus::ContinueToSend, block_size: 4, st_min: 0x14 }
    );
}

#[test]
fn coordinator_waits_then_overflows() {
    let mut fc = FlowControlCoordinator::new(&FlowControlOptions::new(0, 0, 2));
    let wait = Pdu::FlowControl { status: FlowStatus::Wait, block_size: 0, st_min: 0 };
    assert_eq!(fc.respond(true, false), wait);
    assert_eq!(fc.respond(true, false), wait);
    // wftmax exhausted: the receiver must give up rather than stall
    assert_eq!(
        fc.respond(true, false),
        Pdu::FlowControl { status: FlowStatus::Overflow, block_size: 0, st_min: 0 }
    );
}

#[test]
fn coordinator_refuses_oversized_message() {
    let mut fc = FlowControlCoordinator::new(&FlowControlOptions::new(4, 0, 2));
    assert_eq!(
        fc.respond(false, true),
        Pdu::FlowControl { status: FlowStatus::Overflow, block_size: 4, st_min: 0 }
    );
}

#[test]
fn coordinator_stays_silent_in_listen_mode() {
    let mut fc = FlowControlCoordinator::new(&FlowControlOptions::new(4, 0x14, 2));
    let listen = IsoTpOptions::new(
        IsoTpBehaviour::from_bits(CAN_ISOTP_LISTEN_MODE).unwrap(),
        Duration::from_nanos(0),
        0,
        0xCC,
        0xCC,
        0,
    )
    .unwrap();
    assert_eq!(fc.answer_first_frame(&listen, true, true), None);
    let talk = IsoTpOptions::default();
    assert_eq!(
        fc.answer_first_frame(&talk, true, true),
        Some(Pdu::FlowControl { status: FlowStatus::ContinueToSend, block_size: 4, st_min: 0x14 })
    );
}

#[test]
fn feed_frame_reassembles_from_raw_payloads() {
    let opts = IsoTpOptions::default();
    let mut rx = Reassembler::new(4096);
    assert_eq!(
        rx.feed_frame(&[0x10, 0x0A, 0, 1, 2, 3, 4, 5], &opts),
        Ok(RxEvent::Started)
    );
    assert_eq!(
        rx.feed_frame(&[0x21, 6, 7, 8, 9], &opts),
        Ok(RxEvent::Complete { message: vec![0, 1, 2, 3, 4, 5, 6, 7, 8, 9] })
    );
}

#[test]
fn feed_frame_reports_both_error_kinds() {
    let opts = IsoTpOptions::default();
    let mut rx = Reassembler::new(4096);
    // an undecodable payload leaves the transfer untouched
    rx.feed_frame(&[0x10, 0x0A, 0, 1, 2, 3, 4, 5], &opts).unwrap();
    assert_eq!(
        rx.feed_frame(&[0x40, 0, 0], &opts),
        Err(FrameError::Decode(DecodeError::InvalidPduType))
    );
    // a wrong sequence number aborts it
    assert_eq!(
        rx.feed_frame(&[0x25, 6, 7, 8, 9], &opts),
        Err(FrameError::Protocol(ProtocolError::Sequence { expected: 1, received: 5 }))
    );
    assert!(rx.is_idle());
}
