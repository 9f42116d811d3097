use dali_tools::dali_msg::DaliMsg;
use dali_tools::dali_rpi::{bytes_to_event, request_block, RpiEvent, RpiMachine, TimerOp};
use dali_tools::dgw521::{
    accept_frame, monitor_registers, status_result, DALIcmd, MonitorRead, MonitorState,
    PendingCmd, SendEvent, SendMachine, SendOp, SlotIndex,
};
use dali_tools::driver::{DaliBusEventType, DaliFrame, DaliSendResult};
use dali_tools::helvar::{command_report, decode_report, HelvarEngine, ReportAction, ReportMeaning};
use dali_tools::pru::{
    handle_block, next_pru_seq, reply_outcome, reply_to_send_result, request_msg, PruError,
};
use dali_tools::send_flags::Flags;

fn req(id: u64, data: DaliFrame, flags: Flags) -> PendingCmd {
    PendingCmd { id, cmd: DALIcmd { data, flags } }
}

fn driver_error(r: &DaliSendResult) -> String {
    match r {
        DaliSendResult::DriverError(e) => e.clone(),
        _ => panic!("Expected a driver error, got {:?}", r),
    }
}

#[test]
fn dgw521_status_results() {
    assert!(matches!(status_result(0x4205, false), DaliSendResult::Answer(0x42)));
    assert!(matches!(status_result(0x0003, false), DaliSendResult::Sent));
    assert!(matches!(status_result(0x1703, true), DaliSendResult::Answer(0x17)));
    assert!(matches!(status_result(0x0006, true), DaliSendResult::Framing));
    assert!(matches!(status_result(0x0004, true), DaliSendResult::Timeout));
    assert!(matches!(status_result(0x0007, true), DaliSendResult::Timeout));
    assert_eq!(driver_error(&status_result(0x0001, true)), "Command not finished");
    assert_eq!(driver_error(&status_result(0x0009, true)), "Unknown status");
}

#[test]
fn dgw521_slot_index() {
    let mut s = SlotIndex::new(0xfffe);
    assert_eq!(s.slot(), 6);
    assert_eq!(s.mask(), 0x40);
    s.add(3);
    assert_eq!(s.0, 1);
    assert_eq!(s.diff(SlotIndex::new(0xffff)), 2);
    assert!(accept_frame(&DaliFrame::Frame16([1, 2])).is_ok());
    match accept_frame(&DaliFrame::Frame8(1)) {
        Err(e) => assert_eq!(driver_error(&e), "Only 16-bit frames supported when sending"),
        Ok(()) => panic!("8-bit frame accepted"),
    }
}

#[test]
fn dgw521_send_round() {
    let mut m = SendMachine::new();
    let flags = Flags::ExpectAnswer(true);
    let (reply, op) = m.step(SendEvent::Request(req(7, DaliFrame::Frame16([0xff, 0xa0]), flags)));
    assert!(reply.is_none());
    assert!(matches!(op, SendOp::ReadMask));
    // Every slot free
    let (reply, op) = m.step(SendEvent::Mask(Some(0xff)));
    assert!(reply.is_none());
    assert!(matches!(op, SendOp::Write { register: 32, value: 0xffa0 }));
    let (reply, op) = m.step(SendEvent::Written(Ok(())));
    assert!(reply.is_none());
    assert!(matches!(op, SendOp::TryRecv));
    let (reply, op) = m.step(SendEvent::Received(None));
    assert!(reply.is_none());
    assert!(matches!(op, SendOp::Sleep));
    let (_, op) = m.step(SendEvent::Slept);
    assert!(matches!(op, SendOp::ReadMask));
    // Slot 0 has its result
    let (reply, op) = m.step(SendEvent::Mask(Some(0x01)));
    assert!(reply.is_none());
    assert!(matches!(op, SendOp::ReadStatus { register: 0 }));
    let (reply, op) = m.step(SendEvent::Status(Ok(0x2a05)));
    assert!(matches!(reply, Some((7, DaliSendResult::Answer(0x2a)))));
    assert!(matches!(op, SendOp::Continue));
    let (reply, op) = m.step(SendEvent::Continued);
    assert!(reply.is_none());
    assert!(matches!(op, SendOp::Done { dropped: None }));
}

#[test]
fn dgw521_refuses_other_frames() {
    let mut m = SendMachine::new();
    m.step(SendEvent::Request(req(3, DaliFrame::Frame24([1, 2, 3]), Flags::Empty)));
    let (reply, op) = m.step(SendEvent::Mask(Some(0xff)));
    match reply {
        Some((3, r)) => assert_eq!(driver_error(&r), "Only 16 bit frames supported"),
        _ => panic!("Expected an error reply"),
    }
    assert!(matches!(op, SendOp::TryRecv));
    // Slot skipped: one in use, so the machine sleeps
    let (_, op) = m.step(SendEvent::Received(None));
    assert!(matches!(op, SendOp::Sleep));
}

#[test]
fn dgw521_write_error() {
    let mut m = SendMachine::new();
    m.step(SendEvent::Request(req(4, DaliFrame::Frame16([1, 2]), Flags::Empty)));
    m.step(SendEvent::Mask(Some(0xff)));
    let (reply, op) = m.step(SendEvent::Written(Err("link down".to_string())));
    match reply {
        Some((4, r)) => assert_eq!(driver_error(&r), "link down"),
        _ => panic!("Expected an error reply"),
    }
    assert!(matches!(op, SendOp::ReadMask));
}

#[test]
fn dgw521_monitor() {
    let mut m = MonitorState::new(1_000);
    assert!(m.plan(0xffff).is_none());
    let r = m.plan(2).unwrap();
    assert_eq!(r, MonitorRead { position: 0, count: 3 });
    assert_eq!(monitor_registers(r), (1024, 6));
    let (ts, ev) = m.entry(0x1234, 0x08 + 64 * 5, 9_000);
    assert_eq!(ts, 6_000);
    assert!(matches!(ev, DaliBusEventType::Frame16([0x12, 0x34])));
    let (ts, ev) = m.entry(0x0055, 999 * 64, 9_000);
    assert_eq!(ts, 9_000);
    assert!(matches!(ev, DaliBusEventType::Frame8(0x55)));
    let (_, ev) = m.entry(0, 0x02, 9_000);
    assert!(matches!(ev, DaliBusEventType::FramingError));
    m.advance(3);
    assert_eq!(m.last_index, 3);
    // Far behind: only the last 31 events, up to the end of the ring
    let r = m.plan(99).unwrap();
    assert_eq!(m.last_index, 69);
    assert_eq!(r, MonitorRead { position: 5, count: 27 });
}

#[test]
fn rpi_blocks() {
    let cmd = DALIcmd {
        data: DaliFrame::Frame16([0xfe, 0x80]),
        flags: Flags::ExpectAnswer(true) | Flags::SendTwice(true) | Flags::Priority(2),
    };
    assert_eq!(request_block(9, &cmd), Some([9, 3, 18, 16, 0xfe, 0x80, 0, 0]));
    let cmd25 = DALIcmd { data: DaliFrame::Frame25([1, 2, 3, 4]), flags: Flags::Empty };
    assert_eq!(request_block(9, &cmd25), None);
    assert!(matches!(
        bytes_to_event(&[0, 4, 0, 8, 0x42, 0, 0, 0]),
        Some(DaliBusEventType::Frame8(0x42))
    ));
    assert!(matches!(
        bytes_to_event(&[0, 4, 0, 24, 1, 2, 3, 0]),
        Some(DaliBusEventType::Frame24([1, 2, 3]))
    ));
    assert!(matches!(bytes_to_event(&[0, 7, 0, 0, 0, 0, 0, 0]), Some(DaliBusEventType::BusPowerOff)));
    assert!(bytes_to_event(&[0, 9, 0, 0, 0, 0, 0, 0]).is_none());
}

#[test]
fn rpi_request_and_answer() {
    let mut m = RpiMachine::new(0);
    let o = m.step(RpiEvent::Request(req(11, DaliFrame::Frame16([0xff, 0x90]), Flags::ExpectAnswer(true))));
    assert_eq!(o.write, Some([1, 1, 21, 16, 0xff, 0x90, 0, 0]));
    let o = m.step(RpiEvent::Written(Ok(())));
    assert_eq!(o.timer, TimerOp::Arm);
    assert_eq!(m.next_seq, 2);
    // The answer arrives in two pieces
    let o = m.step(RpiEvent::Read { data: vec![1, 3, 0], now: 1_000 });
    assert!(o.reply.is_none());
    let o = m.step(RpiEvent::Read { data: vec![8, 0x17, 0, 0, 0], now: 2_000 });
    assert!(matches!(o.reply, Some((11, DaliSendResult::Answer(0x17)))));
    assert!(m.current.is_none());
    assert_eq!(m.pos, 0);
    // A bus event
    let o = m.step(RpiEvent::Read { data: vec![0, 4, 0, 16, 1, 2, 0, 0], now: 3_000 });
    assert!(matches!(o.event, Some(DaliBusEventType::Frame16([1, 2]))));
}

#[test]
fn rpi_timeout_and_errors() {
    let mut m = RpiMachine::new(0);
    m.step(RpiEvent::Request(req(5, DaliFrame::Frame8(0x10), Flags::Empty)));
    m.step(RpiEvent::Written(Ok(())));
    let o = m.step(RpiEvent::TimedOut);
    assert!(matches!(o.reply, Some((5, DaliSendResult::Timeout))));
    assert_eq!(o.timer, TimerOp::Disarm);
    let o = m.step(RpiEvent::Request(req(6, DaliFrame::Frame25([0; 4]), Flags::Empty)));
    match o.reply {
        Some((6, r)) => assert_eq!(driver_error(&r), "25-bit frames not supported"),
        _ => panic!("Expected an error reply"),
    }
    m.step(RpiEvent::Request(req(8, DaliFrame::Frame8(1), Flags::Empty)));
    let o = m.step(RpiEvent::Written(Err("gone".to_string())));
    match o.reply {
        Some((8, r)) => assert_eq!(driver_error(&r), "gone"),
        _ => panic!("Expected an error reply"),
    }
}

#[test]
fn helvar_reports() {
    assert_eq!(command_report([0xff, 0x90], Flags::ExpectAnswer(true)), [3, 0x54, 0xff, 0x90]);
    assert_eq!(command_report([1, 0x20], Flags::SendTwice(true)), [3, 0xd0, 1, 0x20]);
    assert!(matches!(
        decode_report(&[0, 0x6d, 0x33, 0]),
        ReportMeaning::Result(DaliSendResult::Answer(0x33))
    ));
    assert!(matches!(decode_report(&[0, 0x66, 0x33, 0]), ReportMeaning::Event(DaliBusEventType::Frame8(0x33))));
    assert!(matches!(decode_report(&[0, 0x6d, 0x33]), ReportMeaning::Unknown));
    let mut e = HelvarEngine::new();
    assert!(e.accepts());
    assert_eq!(e.request(21, [0xff, 0xa0], Flags::ExpectAnswer(true)), [3, 0x54, 0xff, 0xa0]);
    assert!(!e.accepts());
    assert!(matches!(e.report(&[0, 0x54, 1, 2]), ReportAction::Monitor(DaliBusEventType::Frame16([1, 2]))));
    assert!(!e.accepts());
    assert!(matches!(e.report(&[0, 0x6b, 0, 0]), ReportAction::Reply(21, DaliSendResult::Timeout)));
    assert!(e.accepts());
    assert!(matches!(e.report(&[0, 0x64, 0, 0]), ReportAction::Nothing));
    assert!(matches!(e.report(&[0, 0x99, 0, 0]), ReportAction::Log));
    assert!(matches!(e.report(&[0, 0x99, 0]), ReportAction::Nothing));
    assert!(matches!(e.report(&[0, 0x30, 1, 2]), ReportAction::Log));
    assert!(matches!(e.report(&[0, 0x30, 1, 2, 3]), ReportAction::Monitor(DaliBusEventType::Frame24([1, 2, 3]))));
}

#[test]
fn pru_blocks() {
    let cmd = DALIcmd {
        data: DaliFrame::Frame16([0xff, 0x90]),
        flags: Flags::ExpectAnswer(true) | Flags::Priority(3),
    };
    let m = request_msg(4, &cmd);
    // length 16, no priority bits (3 is within 1 to 5), expect answer, retry
    assert_eq!(m.to_block(), [4, 0, 0x18, 0x02, 0xff, 0x90, 0, 0]);
    let back = DaliMsg::from_block([4, 0, 0x18, 0x02, 0xff, 0x90, 0, 0]);
    assert_eq!(back.to_block(), m.to_block());
    let cmd8 = DALIcmd { data: DaliFrame::Frame8(0x55), flags: Flags::Empty };
    assert_eq!(request_msg(5, &cmd8).to_block(), [5, 0, 0x50, 0x01, 0x55, 0, 0, 0]);

    let answer = DaliMsg::from_block([4, 5, 0, 1, 0x2a, 0, 0, 0]);
    assert!(matches!(reply_to_send_result(&answer), DaliSendResult::Answer(0x2a)));
    let done = DaliMsg::from_block([4, 2, 0, 2, 0, 0, 0, 0]);
    assert!(reply_outcome(4, true, &done).is_none());
    assert!(matches!(reply_outcome(4, false, &done), Some(DaliSendResult::Sent)));
    match reply_outcome(3, false, &done) {
        Some(r) => assert_eq!(driver_error(&r), "Unexpected sequence number in reply: Got 4, expected"),
        None => panic!("Expected an error"),
    }
    let odd = DaliMsg::from_block([4, 77, 0, 2, 0, 0, 0, 0]);
    assert_eq!(driver_error(&reply_to_send_result(&odd)), "Device result: 77");
    let busy = DaliMsg::from_block([4, 30, 0, 2, 0, 0, 0, 0]);
    assert_eq!(driver_error(&reply_to_send_result(&busy)), "Bus busy, frame not sent");
}

#[test]
fn pru_error_texts() {
    assert_eq!(PruError::UnhandledFrameLength.message(), "Unhandled frame length");
    assert_eq!(PruError::TimingError.message(), "Internal timing error");
    assert_eq!(PruError::DeviceResult(12).message(), "Device result: 12");
    assert_eq!(
        PruError::SequenceError { expected: 0, got: 7 }.message(),
        "Expected 0 as sequence number, got 7"
    );
}

#[test]
fn pru_sequence_numbers() {
    assert_eq!(next_pru_seq(1), 2);
    assert_eq!(next_pru_seq(254), 255);
    assert_eq!(next_pru_seq(255), 1);
}

#[test]
fn pru_unsolicited_blocks() {
    assert!(matches!(
        handle_block(&DaliMsg::from_block([0, 5, 0, 2, 1, 2, 0, 0])),
        Ok(DaliBusEventType::Frame16([1, 2]))
    ));
    assert!(matches!(
        handle_block(&DaliMsg::from_block([0, 20, 0, 0, 0, 0, 0, 0])),
        Ok(DaliBusEventType::BusPowerOff)
    ));
    assert!(matches!(
        handle_block(&DaliMsg::from_block([0, 5, 0, 5, 0, 0, 0, 0])),
        Err(PruError::UnhandledFrameLength)
    ));
    assert!(matches!(
        handle_block(&DaliMsg::from_block([2, 5, 0, 1, 0, 0, 0, 0])),
        Err(PruError::SequenceError { expected: 0, got: 2 })
    ));
    assert!(matches!(
        handle_block(&DaliMsg::from_block([0, 99, 0, 1, 0, 0, 0, 0])),
        Err(PruError::DeviceResult(99))
    ));
}

#[test]
fn setters_keep_the_frame_length() {
    let frame = [1u8, 2, 3, 4];
    let mut msgs = [
        DaliMsg::frame8(1, &frame),
        DaliMsg::frame16(2, &frame),
        DaliMsg::frame24(3, &frame),
        DaliMsg::frame25(4, &frame),
    ];
    for m in msgs.iter_mut() {
        m.set_send_twice(true);
        m.set_expect_answer(true);
        m.set_retry(true);
        m.set_ignore_collisions(true);
        m.set_priority(0xffff);
        m.set_send_twice(false);
        m.set_priority(0);
    }
    let lengths: Vec<u16> = msgs.iter().map(|m| m.bit_length()).collect();
    assert_eq!(lengths, vec![8, 16, 24, 25]);
}

#[test]
fn dgw521_every_request_settled_once() {
    let mut queue: std::collections::VecDeque<PendingCmd> = (1..=12u64)
        .map(|id| {
            let data = if id == 5 { DaliFrame::Frame8(1) } else { DaliFrame::Frame16([0, id as u8]) };
            req(id, data, Flags::Empty)
        })
        .collect();
    let mut settled: Vec<u64> = Vec::new();
    let mut m = SendMachine::new();
    let mut event = SendEvent::Request(queue.pop_front().unwrap());
    for _ in 0..1000 {
        let (reply, op) = m.step(event);
        if let Some((id, _)) = reply {
            settled.push(id);
        }
        event = match op {
            SendOp::ReadMask => SendEvent::Mask(Some(0xff)),
            SendOp::ReadStatus { .. } => SendEvent::Status(Ok(0x0003)),
            SendOp::Write { .. } => SendEvent::Written(Ok(())),
            SendOp::TryRecv => SendEvent::Received(queue.pop_front()),
            SendOp::Sleep => SendEvent::Slept,
            SendOp::Continue => SendEvent::Continued,
            SendOp::Done { dropped } => {
                if let Some(id) = dropped {
                    settled.push(id);
                }
                match queue.pop_front() {
                    Some(r) => SendEvent::Request(r),
                    None => break,
                }
            }
        };
    }
    settled.sort();
    assert_eq!(settled, (1..=12u64).collect::<Vec<u64>>());
}
