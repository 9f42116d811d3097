use dali_tools::driver::{DaliBusEventType, DaliFrame, DaliSendResult};
use dali_tools::send_flags::Flags;
use dali_tools::simulator::gear::{
    receive_frame16, start_fade, GearState, LEVEL_HIRES_SCALE, LEVEL_HIRES_SHIFT,
};
use dali_tools::simulator::scheduler::{
    task_id, SchedulerAction, SchedulerDataMut, SimulatorMessageDest,
};
use dali_tools::simulator::sender::{SendAction, SendState, ANSWER_WINDOW_US, SEND_TWICE_GAP_US};
use dali_tools::simulator::sim_bus::{
    DaliSimBus, DaliSimBusDevice, DaliSimBusDeviceEvent, DaliSimBusEvent,
};
use dali_tools::simulator::timing::{frame_duration, send_delay};

const MS: u64 = 1_000;
const SEC: u64 = 1_000_000;

fn check_fade(state: &mut GearState, target_level: u8, now: u64, duration: u64) {
    let start_level = state.actual_level_hires_at(now);
    start_fade(state, target_level, now, duration);
    // Allow a differece due to rounding
    if (state.actual_level_hires_at(now) - start_level).abs() > 1 {
        panic!("{} != {}", state.actual_level_hires_at(now), start_level);
    }
    // End of fade should always be exact
    assert_eq!(
        state.actual_level_hires_at(now + duration),
        i16::from(target_level) << LEVEL_HIRES_SHIFT
    );
}

#[test]
fn test_fade() {
    let mut now: u64 = 5 * SEC;
    let mut state = GearState::new("BAR01".to_string(), 0xffffff, now);
    state.target_level = 78 * LEVEL_HIRES_SCALE;
    check_fade(&mut state, 254, now, 100 * MS);

    now += 43 * MS;
    check_fade(&mut state, 0, now, 15 * 60 * SEC);

    now += 15 * 60 * SEC;
    check_fade(&mut state, 254, now, 15 * 60 * SEC);

    now += 14 * 60 * SEC;
    check_fade(&mut state, 238, now, 15 * 60 * SEC);
}

// Over very long fades the slope's rounding shows: a fade down by 2/128 of
// a level over 8388.608 s starts with a jump to its end level.
#[test]
fn very_long_fade_rounds_its_slope() {
    let mut state = GearState::new("G".to_string(), 1, 0);
    state.target_level = 130;
    assert_eq!(state.actual_level_hires_at(0), 130);
    start_fade(&mut state, 1, 0, 8_388_608_000);
    assert_eq!(state.fade_slope, 0);
    assert_eq!(state.actual_level_hires_at(0), 128);
}

#[test]
fn fade_halfway_level() {
    let mut state = GearState::new("G".to_string(), 1, 0);
    state.target_level = 0;
    start_fade(&mut state, 200, 0, 1 * SEC);
    assert_eq!(state.actual_level_at(500 * MS), 100);
    assert_eq!(state.actual_level_at(1 * SEC), 200);
    assert_eq!(state.actual_level_at(2 * SEC), 200);
}

#[test]
fn new_gear_answers_queries() {
    let mut dev = GearState::new("G1".to_string(), 0x123456, 0);
    assert_eq!(dev.actual_level(), 254);
    let r = receive_frame16(&mut dev, 1000, [0xff, 0x91], Flags::Empty);
    assert!(matches!(r, Some(DaliBusEventType::Frame8(0xff))));
    let r = receive_frame16(&mut dev, 2000, [0xff, 0xc2], Flags::Empty);
    assert!(matches!(r, Some(DaliBusEventType::Frame8(0x12))));
    let r = receive_frame16(&mut dev, 3000, [0xff, 0xc4], Flags::Empty);
    assert!(matches!(r, Some(DaliBusEventType::Frame8(0x56))));
    // Direct arc power to every gear, then ask for the level
    let r = receive_frame16(&mut dev, 4000, [0xfe, 100], Flags::Empty);
    assert!(r.is_none());
    let r = receive_frame16(&mut dev, 5000, [0xff, 0xa0], Flags::Empty);
    assert!(matches!(r, Some(DaliBusEventType::Frame8(100))));
    // A command to another short address is ignored
    let r = receive_frame16(&mut dev, 6000, [0x05, 0xa0], Flags::Empty);
    assert!(r.is_none());
}

#[test]
fn gear_refuses_what_it_cannot_take() {
    let mut dev = GearState::new("G1".to_string(), 0x123456, 0);
    // UP is not implemented
    assert!(!dev.prepare_frame16(1000, [0xff, 0x01], Flags::Empty));
    assert_eq!(dev.current_time, 1000);
    assert!(dev.prepare_frame16(2000, [0xff, 0xa0], Flags::Empty));
    assert!(dev.prepare_frame16(3000, [0xfe, 100], Flags::Empty));
    // A command for another short address goes to no handler that fails
    assert!(dev.prepare_frame16(4000, [0x05, 0x01], Flags::Empty));
    // IDENTIFY DEVICE, sent twice, is not implemented
    assert!(!dev.prepare_frame16(5000, [0xff, 0x25], Flags::SendTwice(true)));
}

#[test]
fn with_random_address_is_new_gear() {
    let dev = GearState::with_random_address("R".to_string(), 0);
    assert!(dev.random_address <= 0xffffff);
    assert_eq!(dev.short_address, 0xff);
    assert_eq!(dev.max_level, 0xfe);
}

// Task 1 waits one second, then task 2 comes and waits three seconds while
// task 1 waits one and then four.
#[test]
fn scheduler_test() {
    let mut sched: SchedulerDataMut<u32> = SchedulerDataMut::new(0);
    let t1 = sched.new_task();
    assert_eq!(task_id(t1), 1);
    assert!(matches!(sched.wait_until(t1, 1 * SEC), Some(SchedulerAction::Timeout { task: 0 })));
    assert_eq!(sched.current_time, 1 * SEC);
    let t2 = sched.new_task();
    assert!(matches!(sched.wait_until(t1, 2 * SEC), Some(SchedulerAction::Idle)));
    assert!(matches!(sched.wait_until(t2, 4 * SEC), Some(SchedulerAction::Timeout { task: 0 })));
    assert_eq!(sched.current_time, 2 * SEC);
    assert!(matches!(sched.wait_until(t1, 6 * SEC), Some(SchedulerAction::Timeout { task: 1 })));
    assert_eq!(sched.current_time, 4 * SEC);
    assert!(matches!(sched.shutdown(t2), SchedulerAction::Timeout { task: 0 }));
    assert_eq!(sched.current_time, 6 * SEC);
}

// Task 1 sends task 2 a message, and later task 2 sends one to all.
#[test]
fn event_test() {
    let mut sched: SchedulerDataMut<u32> = SchedulerDataMut::new(0);
    let t1 = sched.new_task();
    let t2 = sched.new_task();
    assert!(matches!(sched.wait(t2), Some(SchedulerAction::Idle)));
    assert!(matches!(sched.wait_until(t1, 1 * SEC), Some(SchedulerAction::Timeout { task: 0 })));
    assert!(matches!(
        sched.send_msg(SimulatorMessageDest::Task(task_id(t2)), 3),
        SchedulerAction::Idle
    ));
    match sched.wait_until(t1, 2 * SEC) {
        Some(SchedulerAction::Deliver { tasks, msg }) => {
            assert_eq!(tasks, vec![1]);
            assert_eq!(msg, 3);
        }
        _ => panic!("Expected message"),
    }
    assert_eq!(sched.current_time, 1 * SEC);
    assert!(matches!(sched.wait_until(t2, 4 * SEC), Some(SchedulerAction::Timeout { task: 0 })));
    assert_eq!(sched.current_time, 2 * SEC);
    assert!(matches!(sched.wait_until(t1, 5 * SEC), Some(SchedulerAction::Timeout { task: 1 })));
    assert_eq!(sched.current_time, 4 * SEC);
    assert!(matches!(sched.send_msg(SimulatorMessageDest::All, 7), SchedulerAction::Idle));
    match sched.wait(t2) {
        Some(SchedulerAction::Deliver { tasks, msg }) => {
            assert_eq!(tasks, vec![0, 1]);
            assert_eq!(msg, 7);
        }
        _ => panic!("Expected message"),
    }
    assert_eq!(sched.current_time, 4 * SEC);
}

#[test]
fn scheduler_shutdown() {
    let mut sched: SchedulerDataMut<u32> = SchedulerDataMut::new(10);
    let t1 = sched.new_task();
    let t2 = sched.new_task();
    let t3 = sched.new_task();
    assert!(matches!(sched.wait(t1), Some(SchedulerAction::Idle)));
    assert!(matches!(sched.wait_until(t3, 50), Some(SchedulerAction::Idle)));
    let waiting = sched.shutdown_all();
    assert_eq!(waiting, vec![0, 2]);
    assert!(sched.wait(t2).is_none());
    assert!(sched.message_queue.is_empty());
}

fn frame(source: u32, start: u64, end: u64) -> DaliSimBusEvent {
    DaliSimBusEvent {
        source_id: source,
        start: Some(start),
        timestamp: end,
        event_type: DaliBusEventType::Frame16([0x01, 0x02]),
    }
}

#[test]
fn sim_bus_bus_test() {
    let mut bus = DaliSimBus::new(2);
    let wake = bus.add_event(frame(3, 85 * MS, 100 * MS));
    assert_eq!(wake, SimulatorMessageDest::Task(2));
    assert_eq!(bus.next_deadline(), Some(100 * MS));
    let due = bus.take_due(100 * MS);
    assert_eq!(due.len(), 1);
    assert_eq!(due[0].timestamp, 100 * MS);

    // Collision
    bus.add_event(frame(4, 995 * MS, 1010 * MS));
    bus.add_event(frame(5, 985 * MS, 1000 * MS));
    assert_eq!(bus.next_deadline(), Some(1010 * MS));
    assert!(bus.take_due(1000 * MS).is_empty());
    let due = bus.take_due(1010 * MS);
    assert_eq!(due.len(), 1);
    let event = &due[0];
    assert_eq!(event.timestamp, 1010 * MS);
    assert_eq!(event.start, Some(985 * MS));
    assert!(matches!(event.event_type, DaliBusEventType::FramingError));
    assert_eq!(bus.next_deadline(), None);
}

#[test]
fn sim_bus_keeps_separate_frames() {
    let mut bus = DaliSimBus::new(1);
    bus.add_event(frame(1, 200, 300));
    bus.add_event(frame(2, 10, 100));
    assert_eq!(bus.next_deadline(), Some(300));
    assert!(bus.take_due(299).is_empty());
    // Taken off the end, latest first
    let due = bus.take_due(1000);
    assert_eq!(due.len(), 2);
    assert_eq!(due[0].timestamp, 300);
    assert_eq!(due[1].timestamp, 100);
}

#[test]
fn timing_values() {
    assert_eq!(frame_duration(&DaliFrame::Frame8(0)), 9 * 833);
    assert_eq!(frame_duration(&DaliFrame::Frame8(1)), 9 * 833 - 417);
    assert_eq!(frame_duration(&DaliFrame::Frame16([0, 2])), 17 * 833);
    assert_eq!(frame_duration(&DaliFrame::Frame25([0, 0, 0, 0x80])), 26 * 833 - 417);
    assert_eq!(send_delay(1, false), 13_500_000);
    assert_eq!(send_delay(9, false), 19_500_000);
    for _ in 0..20 {
        let d = send_delay(3, true);
        assert!(d % 1000 == 0 && d >= 16_300_000 && d <= 17_700_000);
    }
}

#[test]
fn sender_with_answer() {
    let frame = DaliFrame::Frame16([0xff, 0xa0]);
    let flags = Flags::Priority(1) | Flags::ExpectAnswer(true);
    let (s, a) = SendState::start(0, flags);
    assert!(matches!(a, SendAction::WaitUntil(13_500_000)));
    let (s, a) = s.step(DaliSimBusDeviceEvent::Timeout, 13_500_000, &frame, flags, 0);
    let end = 13_500_000 + 17 * 833;
    assert!(matches!(a, SendAction::Emit { start: 13_500_000, end: e } if e == end));
    let (s, a) = s.step(DaliSimBusDeviceEvent::Timeout, end, &frame, flags, 0);
    assert!(matches!(a, SendAction::WaitUntil(e) if e == end));
    let (s, a) = s.step(DaliSimBusDeviceEvent::Timeout, end, &frame, flags, 0);
    assert!(matches!(s, SendState::Reply));
    assert!(matches!(a, SendAction::WaitUntil(e) if e == end + ANSWER_WINDOW_US));
    let answer = DaliSimBusEvent {
        source_id: 2,
        start: Some(end + 5_000),
        timestamp: end + 12_000,
        event_type: DaliBusEventType::Frame8(42),
    };
    let (_, a) = s.step(DaliSimBusDeviceEvent::Message(answer), end + 12_000, &frame, flags, 0);
    assert!(matches!(a, SendAction::Finish(DaliSendResult::Answer(42))));
}

#[test]
fn sender_twice_and_timeout() {
    let frame = DaliFrame::Frame16([0x01, 0x20]);
    let flags = Flags::SendTwice(true) | Flags::ExpectAnswer(true);
    let (s, _) = SendState::start(0, flags);
    let (s, _) = s.step(DaliSimBusDeviceEvent::Timeout, 19_500_000, &frame, flags, 0);
    let end = 19_500_000 + 17 * 833;
    let (s, a) = s.step(DaliSimBusDeviceEvent::Timeout, end, &frame, flags, 0);
    let s2 = end + SEND_TWICE_GAP_US;
    assert!(matches!(a, SendAction::WaitUntil(t) if t == s2));
    let (s, a) = s.step(DaliSimBusDeviceEvent::Timeout, s2, &frame, flags, 0);
    assert!(matches!(a, SendAction::Emit { start, end: e } if start == s2 && e == s2 + 17 * 833));
    let (s, _) = s.step(DaliSimBusDeviceEvent::Timeout, s2 + 17 * 833, &frame, flags, 0);
    let (_, a) = s.step(DaliSimBusDeviceEvent::Timeout, s2 + 17 * 833 + ANSWER_WINDOW_US, &frame, flags, 0);
    assert!(matches!(a, SendAction::Finish(DaliSendResult::Timeout)));
}

#[test]
fn sender_backs_off_and_stops() {
    let frame = DaliFrame::Frame8(0x10);
    let flags = Flags::Priority(2);
    let (s, _) = SendState::start(0, flags);
    let busy = DaliSimBusEvent {
        source_id: 9,
        start: Some(1000),
        timestamp: 8000,
        event_type: DaliBusEventType::Frame8(1),
    };
    let (s, a) = s.step(DaliSimBusDeviceEvent::Message(busy), 8000, &frame, flags, 0);
    assert!(matches!(a, SendAction::WaitUntil(t) if t == 8000 + 14_900_000));
    let (s, _) = s.step(DaliSimBusDeviceEvent::Timeout, 8000 + 14_900_000, &frame, flags, 2_400);
    let end = 8000 + 14_900_000 + 9 * 833;
    let (s, _) = s.step(DaliSimBusDeviceEvent::Timeout, end, &frame, flags, 2_400);
    let (s, a) = s.step(DaliSimBusDeviceEvent::Timeout, end, &frame, flags, 2_400);
    assert!(matches!(s, SendState::Stop));
    assert!(matches!(a, SendAction::WaitUntil(t) if t == end + 2_400));
    let (_, a) = s.step(DaliSimBusDeviceEvent::Timeout, end + 2_400, &frame, flags, 2_400);
    assert!(matches!(a, SendAction::Finish(DaliSendResult::Sent)));
    let (_, a) = SendState::Reply.step(DaliSimBusDeviceEvent::Shutdown, 0, &frame, flags, 0);
    match a {
        SendAction::Finish(DaliSendResult::DriverError(e)) => assert_eq!(e, "Shutdown"),
        _ => panic!("Expected shutdown"),
    }
}

#[test]
fn fade_up_never_goes_down() {
    let mut state = GearState::new("G".to_string(), 1, 0);
    state.target_level = 13 * LEVEL_HIRES_SCALE;
    start_fade(&mut state, 250, 10 * MS, 7 * SEC);
    let mut last = state.actual_level_hires_at(10 * MS);
    let mut last_level = state.actual_level_at(10 * MS);
    let mut t = 10 * MS;
    while t <= 8 * SEC {
        let h = state.actual_level_hires_at(t);
        let l = state.actual_level_at(t);
        assert!(h >= last);
        assert!(l >= last_level);
        last = h;
        last_level = l;
        t += 37 * MS;
    }
    assert_eq!(state.actual_level_at(7 * SEC + 10 * MS), 250);
    assert_eq!(state.actual_level_at(9 * SEC), 250);
}

#[test]
fn device_event_goes_to_the_bus_and_wakes_its_task() {
    let mut bus = DaliSimBus::new(7);
    let device = DaliSimBusDevice::new(3);
    let wake = device.add_event(&mut bus, DaliBusEventType::Frame8(0x42), 200, Some(100));
    assert_eq!(wake, SimulatorMessageDest::Task(7));
    let wake = device.add_event(&mut bus, DaliBusEventType::BusPowerOn, 150, None);
    assert_eq!(wake, SimulatorMessageDest::Task(7));
    let due = bus.take_due(1000);
    assert_eq!(due.len(), 1);
    assert_eq!(due[0].source_id, 3);
    assert_eq!(due[0].start, Some(100));
    assert!(matches!(due[0].event_type, DaliBusEventType::Frame8(0x42)));
}

#[test]
fn bus_frames_stay_apart() {
    let mut bus = DaliSimBus::new(1);
    bus.add_event(frame(2, 100, 200));
    bus.add_event(frame(3, 300, 400));
    bus.add_event(frame(4, 150, 350));
    bus.add_event(frame(5, 500, 600));
    let due = bus.take_due(10_000);
    assert_eq!(due.len(), 2);
    // Latest first; the overlapping frames became one framing error.
    assert_eq!((due[1].start, due[1].timestamp), (Some(100), 400));
    assert!(matches!(due[1].event_type, DaliBusEventType::FramingError));
    assert_eq!((due[0].start, due[0].timestamp), (Some(500), 600));
    assert!(due[1].timestamp < due[0].start.unwrap());
}
