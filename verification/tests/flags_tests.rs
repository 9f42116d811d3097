use dali_tools::send_flags::Flags;
use dali_tools::driver::{DaliBusEventType, DaliFrame, DaliSendResult};
use dali_tools::cmd_defs;
use dali_tools::command_utils;
use dali_tools::address::{Address, AddressByte, Short};

#[test]
fn flags_options() {
    let f = Flags::Priority(3) | Flags::SendTwice(true);
    assert!(f.send_twice());
    assert!(!f.expect_answer());
    assert_eq!(f.priority(), 3);
    let g = f | Flags::SendTwice(false) | Flags::ExpectAnswer(true);
    assert!(!g.send_twice());
    assert!(g.expect_answer());
    assert_eq!(g.priority(), 3);
    assert_eq!(Flags::Empty.priority(), 5);
    let mut h = Flags::Empty;
    h |= Flags::Priority(1);
    assert_eq!(h.priority(), 1);
    assert_eq!(Flags::Priority(0).priority(), 5);
}

#[test]
fn send_results() {
    assert!(DaliSendResult::Sent.check_send().is_ok());
    assert!(DaliSendResult::Timeout.check_send().is_err());
    assert_eq!(DaliSendResult::Answer(7).check_answer().unwrap(), 7);
    assert!(DaliSendResult::Framing.check_answer().is_err());
    assert_eq!(DaliSendResult::Answer(0x2a).message(), "Answer: 0x2a");
    assert_eq!(DaliSendResult::Sent.message(), "No error");
    assert_eq!(DaliSendResult::DriverError("x".to_string()).message(), "Drive error: x");
}

#[test]
fn frames_and_events() {
    assert_eq!(DaliFrame::Frame25([0; 4]).bit_length(), 25);
    assert_eq!(DaliFrame::Frame8(1).bit_length(), 8);
    let e: DaliBusEventType = DaliFrame::Frame16([1, 2]).into();
    assert!(matches!(e, DaliBusEventType::Frame16([1, 2])));
    assert!(matches!(DaliFrame::try_from(e), Ok(DaliFrame::Frame16([1, 2]))));
    assert!(DaliFrame::try_from(DaliBusEventType::BusPowerOn).is_err());
}

#[test]
fn command_bytes() {
    let a: AddressByte = Address::Short(Short::new(4)).into();
    assert_eq!(cmd_defs::DAPC(a, 200).0, [8, 200]);
    assert_eq!(cmd_defs::OFF(a).0, [9, 0]);
    assert_eq!(cmd_defs::RESET(a).0, [9, 0x20]);
    let b: AddressByte = Address::Broadcast.into();
    assert_eq!(cmd_defs::RECALL_MAX_LEVEL(b).0, [0xff, 0x05]);
    assert_eq!(cmd_defs::DAPC(b, 3).0, [0xfe, 3]);
    let u: AddressByte = Address::BroadcastUnaddressed.into();
    assert_eq!(u.0, 0xfd);
}

#[test]
fn command_requests() {
    let a: AddressByte = Address::Short(Short::new(4)).into();
    let (f, fl) = command_utils::cmd(cmd_defs::RESET(a), Flags::Priority(2));
    assert!(matches!(f, DaliFrame::Frame16([9, 0x20])));
    assert!(fl.send_twice());
    assert_eq!(fl.priority(), 2);
    let (f, fl) = command_utils::cmd(cmd_defs::OFF(a), Flags::Empty);
    assert!(matches!(f, DaliFrame::Frame16([9, 0])));
    assert!(!fl.send_twice());
    let (_, fl) = command_utils::query(cmd_defs::QUERY_STATUS(a), Flags::Priority(3));
    assert!(fl.expect_answer());
    assert_eq!(fl.priority(), 3);
    let (f, _) = command_utils::device_level(a, 77, Flags::Empty);
    assert!(matches!(f, DaliFrame::Frame16([8, 77])));
    assert!(matches!(command_utils::set_dtr0(5, Flags::Empty).0, DaliFrame::Frame16([0xa3, 5])));
    assert!(matches!(command_utils::set_dtr1(6, Flags::Empty).0, DaliFrame::Frame16([0xc3, 6])));
    assert!(matches!(command_utils::set_dtr2(7, Flags::Empty).0, DaliFrame::Frame16([0xc5, 7])));
}
