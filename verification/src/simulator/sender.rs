//! Sending a frame on the simulated bus, as a state machine: the device
//! that sends waits for a quiet bus, puts its frame on the bus (twice when
//! asked), and waits for an answer or for the stop condition. Each step
//! takes what the wait brought and tells what to do next.
//!
//! Times are microseconds on the simulation clock.
use vstd::prelude::*;
use crate::driver::{DaliBusEventType, DaliFrame, DaliSendResult};
use crate::send_flags::{Flags, spec_bits, spec_priority_of_bits, SEND_TWICE_BIT, EXPECT_ANSWER_BIT};
use crate::simulator::sim_bus::{DaliSimBusDevice, DaliSimBusDeviceEvent};
use crate::simulator::timing::{frame_duration, send_delay, spec_delay_range, spec_frame_duration};

verus! {

/// Time from the end of a frame to the start of its repetition.
pub const SEND_TWICE_GAP_US: u64 = 13_500;
/// How long a sender waits for an answer.
pub const ANSWER_WINDOW_US: u64 = 50_000;
/// Times beyond this are out of the simulation's range.
pub const MAX_TIME: u64 = 0x4000_0000_0000_0000;

/// Where a send stands.
#[derive(Debug, Clone, Copy, PartialEq, Eq, Structural)]
pub enum SendState {
    /// Waiting for the bus to be quiet until `frame_start`
    Backoff { frame_start: u64 },
    /// The first frame is on the bus until `frame_end`
    FirstFrame { frame_end: u64 },
    /// Waiting to repeat the frame from `frame_start` to `frame_end`
    TwiceGap { frame_start: u64, frame_end: u64 },
    /// The last frame is on the bus until `frame_end`
    LastFrame { frame_end: u64 },
    /// Waiting for an answer
    Reply,
    /// Waiting for the stop condition
    Stop,
}

/// What the sender does next.
#[derive(Debug, Clone)]
pub enum SendAction {
    /// Wait until this time
    WaitUntil(u64),
    /// Put the frame on the bus from `start` to `end`, then wait until `end`
    Emit { start: u64, end: u64 },
    /// The send is over
    Finish(DaliSendResult),
}

/// The wait before a frame with options `flags`, without randomness.
pub open spec fn spec_backoff(flags: Flags) -> int {
    spec_delay_range(spec_priority_of_bits(spec_bits(flags))).0 * 1000
}

/// The result of a send that the simulation's shutdown ends.
pub open spec fn is_shutdown_error(r: DaliSendResult) -> bool {
    r matches DaliSendResult::DriverError(s) && s@ == "Shutdown"@
}

/// The action waits until `t`.
pub open spec fn waits_until(act: SendAction, t: int) -> bool {
    act matches SendAction::WaitUntil(x) && x == t
}

/// The action puts the frame on the bus from `start` to `end`.
pub open spec fn emits(act: SendAction, start: int, end: int) -> bool {
    act matches SendAction::Emit { start: s, end: e } && s == start && e == end
}

/// The action ends the send with result `r`.
pub open spec fn finishes(act: SendAction, r: DaliSendResult) -> bool {
    act matches SendAction::Finish(x) && x == r
}

/// One step of a send in state `s`, after a wait that ended at `now` with
/// `event`, for `frame` with options `flags`, where the stop condition
/// lasts `stop`: the state after and the action. Another device's event
/// while waiting to start pushes the start back; during the frames, or
/// while waiting for the stop condition, it is a framing error; while
/// waiting for an answer, an 8-bit frame is the answer.
pub open spec fn spec_send_step(
    s: SendState,
    event: DaliSimBusDeviceEvent,
    now: u64,
    frame: DaliFrame,
    flags: Flags,
    stop: u64,
    next: SendState,
    act: SendAction,
) -> bool {
    let dur = spec_frame_duration(frame);
    let twice = spec_bits(flags) & SEND_TWICE_BIT != 0;
    let answer = spec_bits(flags) & EXPECT_ANSWER_BIT != 0;
    match event {
        DaliSimBusDeviceEvent::Shutdown => (act matches SendAction::Finish(r) && is_shutdown_error(r)),
        DaliSimBusDeviceEvent::Message(ev) => match s {
            SendState::Backoff { .. } => {
                let fs = ev.timestamp + spec_backoff(flags);
                &&& next == SendState::Backoff { frame_start: fs as u64 }
                &&& waits_until(act, fs)
            },
            SendState::Reply => match ev.event_type {
                DaliBusEventType::Frame8(d) => finishes(act, DaliSendResult::Answer(d)),
                _ => finishes(act, DaliSendResult::Framing),
            },
            _ => finishes(act, DaliSendResult::Framing),
        },
        DaliSimBusDeviceEvent::Timeout => match s {
            SendState::Backoff { frame_start } => {
                let end = frame_start + dur;
                &&& next == SendState::FirstFrame { frame_end: end as u64 }
                &&& emits(act, frame_start as int, end)
            },
            SendState::FirstFrame { frame_end } => if twice {
                let s2 = now + SEND_TWICE_GAP_US;
                &&& next == SendState::TwiceGap {
                    frame_start: s2 as u64,
                    frame_end: (s2 + dur) as u64,
                }
                &&& waits_until(act, s2)
            } else {
                &&& next == SendState::LastFrame { frame_end }
                &&& waits_until(act, frame_end as int)
            },
            SendState::TwiceGap { frame_start, frame_end } => {
                &&& next == SendState::LastFrame { frame_end }
                &&& emits(act, frame_start as int, frame_end as int)
            },
            SendState::LastFrame { .. } => if answer {
                &&& next == SendState::Reply
                &&& waits_until(act, now + ANSWER_WINDOW_US)
            } else {
                &&& next == SendState::Stop
                &&& waits_until(act, now + stop)
            },
            SendState::Reply => finishes(act, DaliSendResult::Timeout),
            SendState::Stop => finishes(act, DaliSendResult::Sent),
        },
    }
}

/// The times in a send state are in the simulation's range.
pub open spec fn send_state_ok(s: SendState) -> bool {
    match s {
        SendState::Backoff { frame_start } => frame_start <= MAX_TIME / 2 + 100_000_000,
        SendState::FirstFrame { frame_end } => frame_end <= MAX_TIME,
        SendState::TwiceGap { frame_start, frame_end } => frame_start <= MAX_TIME && frame_end
            <= MAX_TIME,
        SendState::LastFrame { frame_end } => frame_end <= MAX_TIME,
        _ => true,
    }
}

fn shutdown_error() -> (r: DaliSendResult)
    ensures
        is_shutdown_error(r),
{
    DaliSendResult::DriverError("Shutdown".to_owned())
}

impl SendState {
    /// The start of a send at `now`: wait the back-off time of the priority.
    pub fn start(now: u64, flags: Flags) -> (r: (SendState, SendAction))
        requires
            now <= MAX_TIME / 2,
        ensures
            r.0 == (SendState::Backoff { frame_start: (now + spec_backoff(flags)) as u64 }),
            waits_until(r.1, now + spec_backoff(flags)),
            send_state_ok(r.0),
    {
        let fs = now + send_delay(flags.priority(), false);
        (SendState::Backoff { frame_start: fs }, SendAction::WaitUntil(fs))
    }

    /// One step of a send: see `spec_send_step`.
    pub fn step(
        self,
        event: DaliSimBusDeviceEvent,
        now: u64,
        frame: &DaliFrame,
        flags: Flags,
        stop: u64,
    ) -> (r: (SendState, SendAction))
        requires
            send_state_ok(self),
            now <= MAX_TIME / 2,
            stop <= MAX_TIME / 2,
            event matches DaliSimBusDeviceEvent::Message(ev) ==> ev.timestamp <= MAX_TIME / 2,
        ensures
            spec_send_step(self, event, now, *frame, flags, stop, r.0, r.1),
            send_state_ok(r.0),
    {
        let dur = frame_duration(frame);
        match event {
            DaliSimBusDeviceEvent::Shutdown => (self, SendAction::Finish(shutdown_error())),
            DaliSimBusDeviceEvent::Message(ev) => match self {
                SendState::Backoff { .. } => {
                    let fs = ev.timestamp + send_delay(flags.priority(), false);
                    (SendState::Backoff { frame_start: fs }, SendAction::WaitUntil(fs))
                },
                SendState::Reply => {
                    let r = match ev.event_type {
                        DaliBusEventType::Frame8(d) => DaliSendResult::Answer(d),
                        _ => DaliSendResult::Framing,
                    };
                    (self, SendAction::Finish(r))
                },
                _ => (self, SendAction::Finish(DaliSendResult::Framing)),
            },
            DaliSimBusDeviceEvent::Timeout => match self {
                SendState::Backoff { frame_start } => {
                    let end = frame_start + dur;
                    (
                        SendState::FirstFrame { frame_end: end },
                        SendAction::Emit { start: frame_start, end },
                    )
                },
                SendState::FirstFrame { frame_end } => {
                    if flags.send_twice() {
                        let s2 = now + SEND_TWICE_GAP_US;
                        (
                            SendState::TwiceGap { frame_start: s2, frame_end: s2 + dur },
                            SendAction::WaitUntil(s2),
                        )
                    } else {
                        (SendState::LastFrame { frame_end }, SendAction::WaitUntil(frame_end))
                    }
                },
                SendState::TwiceGap { frame_start, frame_end } => (
                    SendState::LastFrame { frame_end },
                    SendAction::Emit { start: frame_start, end: frame_end },
                ),
                SendState::LastFrame { .. } => {
                    if flags.expect_answer() {
                        (SendState::Reply, SendAction::WaitUntil(now + ANSWER_WINDOW_US))
                    } else {
                        (SendState::Stop, SendAction::WaitUntil(now + stop))
                    }
                },
                SendState::Reply => (self, SendAction::Finish(DaliSendResult::Timeout)),
                SendState::Stop => (self, SendAction::Finish(DaliSendResult::Sent)),
            },
        }
    }
}

/// The driver of the simulated bus: the bus device it sends through.
pub struct DaliSimDriver {
    pub bus_device: DaliSimBusDevice,
}

impl DaliSimDriver {
    pub fn new(bus_device: DaliSimBusDevice) -> (d: DaliSimDriver)
        ensures
            d.bus_device == bus_device,
    {
        DaliSimDriver { bus_device }
    }
}

/// Errors of the simulated driver.
#[derive(Debug, Clone, Copy, PartialEq, Eq, Structural)]
pub enum SimDriverError {
    OK,
    QueuingFailed,
    ReplyingFailed,
    ThreadError,
}

impl SimDriverError {
    /// The error's description.
    pub fn message(&self) -> (s: &'static str)
        ensures
            s@ == match *self {
                SimDriverError::OK => "No error"@,
                SimDriverError::QueuingFailed => "Queuing failed"@,
                SimDriverError::ReplyingFailed => "Replying failed"@,
                SimDriverError::ThreadError => "Thread error"@,
            },
    {
        match self {
            SimDriverError::OK => "No error",
            SimDriverError::QueuingFailed => "Queuing failed",
            SimDriverError::ReplyingFailed => "Replying failed",
            SimDriverError::ThreadError => "Thread error",
        }
    }
}

} // verus!
