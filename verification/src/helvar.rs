//! The logic of the driver for the Helvar 510 USB DALI adapter, which talks
//! HID reports: a command report carries a 16-bit frame, and input reports
//! carry the result of the last command or a frame seen on the bus.
//!
//! The driver takes one request at a time: a request is accepted only when
//! no answer is awaited.
use vstd::prelude::*;
use crate::driver::{DaliBusEventType, DaliSendResult};
use crate::send_flags::{Flags, spec_bits, SEND_TWICE_BIT, EXPECT_ANSWER_BIT};

verus! {

/// The report that starts the adapter.
pub const START_REPORT: [u8; 3] = [2, 0x82, 0x04];

/// A slot for one operation in progress, or none.
pub struct IdleFuture<T> {
    pub future: Option<T>,
}

impl<T> IdleFuture<T> {
    pub fn new() -> (r: IdleFuture<T>)
        ensures
            r.future is None,
    {
        IdleFuture { future: None }
    }

    pub fn set(&mut self, future: T)
        ensures
            final(self).future == Some(future),
    {
        self.future = Some(future);
    }

    pub fn idle(&mut self)
        ensures
            final(self).future is None,
    {
        self.future = None;
    }
}

/// What an input report means.
#[derive(Debug)]
pub enum ReportMeaning {
    /// The result of the last command
    Result(DaliSendResult),
    /// A frame seen on the bus
    Event(DaliBusEventType),
    /// Something else; too short, or a code that is not known
    Unknown,
}

/// The meaning of an input report `b`: byte 1 is a code; results are
/// 0x6d (answer in byte 2), 0x6c (framing error), 0x64 (sent) and 0x6b (no
/// answer); frames are 0x50 and 0x54 (16 bits, bytes 2 and 3), 0x65 and
/// 0x66 (8 bits, byte 2) and 0x30 (24 bits, bytes 2 to 4, when the report
/// holds them). Reports of 3 bytes or fewer mean nothing.
pub open spec fn spec_decode_report(b: Seq<u8>) -> ReportMeaning {
    if b.len() <= 3 {
        ReportMeaning::Unknown
    } else if b[1] == 0x6d {
        ReportMeaning::Result(DaliSendResult::Answer(b[2]))
    } else if b[1] == 0x6c {
        ReportMeaning::Result(DaliSendResult::Framing)
    } else if b[1] == 0x64 {
        ReportMeaning::Result(DaliSendResult::Sent)
    } else if b[1] == 0x6b {
        ReportMeaning::Result(DaliSendResult::Timeout)
    } else if b[1] == 0x50 || b[1] == 0x54 {
        ReportMeaning::Event(DaliBusEventType::Frame16([b[2], b[3]]))
    } else if b[1] == 0x65 || b[1] == 0x66 {
        ReportMeaning::Event(DaliBusEventType::Frame8(b[2]))
    } else if b[1] == 0x30 && b.len() >= 5 {
        ReportMeaning::Event(DaliBusEventType::Frame24([b[2], b[3], b[4]]))
    } else {
        ReportMeaning::Unknown
    }
}

pub fn decode_report(b: &[u8]) -> (r: ReportMeaning)
    ensures
        r == spec_decode_report(b@),
{
    if b.len() <= 3 {
        ReportMeaning::Unknown
    } else if b[1] == 0x6d {
        ReportMeaning::Result(DaliSendResult::Answer(b[2]))
    } else if b[1] == 0x6c {
        ReportMeaning::Result(DaliSendResult::Framing)
    } else if b[1] == 0x64 {
        ReportMeaning::Result(DaliSendResult::Sent)
    } else if b[1] == 0x6b {
        ReportMeaning::Result(DaliSendResult::Timeout)
    } else if b[1] == 0x50 || b[1] == 0x54 {
        ReportMeaning::Event(DaliBusEventType::Frame16([b[2], b[3]]))
    } else if b[1] == 0x65 || b[1] == 0x66 {
        ReportMeaning::Event(DaliBusEventType::Frame8(b[2]))
    } else if b[1] == 0x30 && b.len() >= 5 {
        ReportMeaning::Event(DaliBusEventType::Frame24([b[2], b[3], b[4]]))
    } else {
        ReportMeaning::Unknown
    }
}

/// The command report for a 16-bit frame: 3 bytes follow; the command
/// 0x50, with 0x80 to send twice and 0x04 to expect an answer; the frame.
pub open spec fn spec_command_report(frame: [u8; 2], flags: Flags) -> Seq<u8> {
    let b = spec_bits(flags);
    let cmd = (0x50 + (if b & SEND_TWICE_BIT != 0 {
        0x80int
    } else {
        0
    }) + (if b & EXPECT_ANSWER_BIT != 0 {
        0x04int
    } else {
        0
    })) as u8;
    seq![3u8, cmd, frame[0], frame[1]]
}

pub fn command_report(frame: [u8; 2], flags: Flags) -> (r: [u8; 4])
    ensures
        r@ == spec_command_report(frame, flags),
{
    let mut cmd: u8 = 0x50;
    if flags.send_twice() {
        cmd = cmd + 0x80;
    }
    if flags.expect_answer() {
        cmd = cmd + 0x04;
    }
    let r = [3u8, cmd, frame[0], frame[1]];
    assert(r@ =~= spec_command_report(frame, flags));
    r
}

/// The driver's state: the request waiting for its result, if any.
pub struct HelvarEngine {
    pub pending: Option<u64>,
}

/// What the driver does after an input report.
#[derive(Debug)]
pub enum ReportAction {
    /// Answer request `id`
    Reply(u64, DaliSendResult),
    /// Report a bus event
    Monitor(DaliBusEventType),
    /// Nothing to do: a report too short to mean anything, or a result
    /// with no request waiting
    Nothing,
    /// A report that means nothing known; it is logged
    Log,
}

/// The action `r` and the waiting request `after` once input report `b`
/// arrives while `pending` waits: a result answers the waiting request, a
/// frame is reported; a report of 3 bytes or fewer is passed over.
pub open spec fn spec_report(
    pending: Option<u64>,
    b: Seq<u8>,
    r: ReportAction,
    after: Option<u64>,
) -> bool {
    &&& b.len() <= 3 ==> r is Nothing && after == pending
    &&& b.len() > 3 ==> match spec_decode_report(b) {
        ReportMeaning::Result(res) => match pending {
            Some(id) => r == ReportAction::Reply(id, res) && after is None,
            None => r is Nothing && after is None,
        },
        ReportMeaning::Event(ev) => r == ReportAction::Monitor(ev) && after == pending,
        ReportMeaning::Unknown => r is Log && after == pending,
    }
}

impl HelvarEngine {
    pub fn new() -> (e: HelvarEngine)
        ensures
            e.pending is None,
    {
        HelvarEngine { pending: None }
    }

    /// A request is accepted only when no result is awaited.
    pub fn accepts(&self) -> (r: bool)
        ensures
            r == self.pending is None,
    {
        self.pending.is_none()
    }

    /// Request `id` for `frame` is taken: the report to write.
    pub fn request(&mut self, id: u64, frame: [u8; 2], flags: Flags) -> (r: [u8; 4])
        requires
            old(self).pending is None,
        ensures
            final(self).pending == Some(id),
            r@ == spec_command_report(frame, flags),
    {
        self.pending = Some(id);
        command_report(frame, flags)
    }

    /// An input report arrived: a result answers the waiting request, a
    /// frame is reported; a report of 3 bytes or fewer is passed over.
    pub fn report(&mut self, b: &[u8]) -> (r: ReportAction)
        ensures
            spec_report(old(self).pending, b@, r, final(self).pending),
    {
        if b.len() <= 3 {
            return ReportAction::Nothing;
        }
        match decode_report(b) {
            ReportMeaning::Result(res) => {
                let p = self.pending;
                self.pending = None;
                match p {
                    Some(id) => ReportAction::Reply(id, res),
                    None => ReportAction::Nothing,
                }
            },
            ReportMeaning::Event(ev) => ReportAction::Monitor(ev),
            ReportMeaning::Unknown => ReportAction::Log,
        }
    }
}

/// The result codes of an input report: 0x64 means the command was sent,
/// 0x6b that no answer came, 0x6c a framing error, and 0x6d an answer, held
/// in byte 2.
pub proof fn lemma_result_codes(b: Seq<u8>)
    requires
        b.len() > 3,
    ensures
        b[1] == 0x64 ==> spec_decode_report(b) == ReportMeaning::Result(DaliSendResult::Sent),
        b[1] == 0x6b ==> spec_decode_report(b) == ReportMeaning::Result(DaliSendResult::Timeout),
        b[1] == 0x6c ==> spec_decode_report(b) == ReportMeaning::Result(DaliSendResult::Framing),
        b[1] == 0x6d ==> spec_decode_report(b) == ReportMeaning::Result(
            DaliSendResult::Answer(b[2]),
        ),
{
}

/// A report of the code 0x64 answers the waiting request with Sent and
/// leaves no request waiting; one of the code 0x6b answers it with Timeout.
pub proof fn lemma_sent_report_answers(b: Seq<u8>, id: u64, r: ReportAction, after: Option<u64>)
    requires
        b.len() > 3,
        spec_report(Some(id), b, r, after),
    ensures
        b[1] == 0x64 ==> r == ReportAction::Reply(id, DaliSendResult::Sent) && after is None,
        b[1] == 0x6b ==> r == ReportAction::Reply(id, DaliSendResult::Timeout) && after is None,
{
}

/// The frame codes of an input report: 0x50 and 0x54 a 16-bit frame in
/// bytes 2 and 3, 0x65 and 0x66 an 8-bit frame in byte 2, 0x30 a 24-bit
/// frame in bytes 2 to 4; a report of 3 bytes or fewer means nothing.
pub proof fn lemma_event_codes(b: Seq<u8>)
    ensures
        b.len() <= 3 ==> spec_decode_report(b) is Unknown,
        b.len() > 3 && (b[1] == 0x50 || b[1] == 0x54) ==> spec_decode_report(b)
            == ReportMeaning::Event(DaliBusEventType::Frame16([b[2], b[3]])),
        b.len() > 3 && (b[1] == 0x65 || b[1] == 0x66) ==> spec_decode_report(b)
            == ReportMeaning::Event(DaliBusEventType::Frame8(b[2])),
        b.len() >= 5 && b[1] == 0x30 ==> spec_decode_report(b) == ReportMeaning::Event(
            DaliBusEventType::Frame24([b[2], b[3], b[4]]),
        ),
{
}

/// The command report for a frame holds the frame in its last two bytes,
/// and its command byte has 0x80 set exactly when the frame is sent twice
/// and 0x04 set exactly when an answer is expected.
pub proof fn lemma_command_report_bits(frame: [u8; 2], flags: Flags)
    ensures
        spec_command_report(frame, flags).len() == 4,
        spec_command_report(frame, flags)[0] == 3,
        spec_command_report(frame, flags)[2] == frame[0],
        spec_command_report(frame, flags)[3] == frame[1],
        (spec_command_report(frame, flags)[1] & 0x80 != 0) == (spec_bits(flags) & SEND_TWICE_BIT
            != 0),
        (spec_command_report(frame, flags)[1] & 0x04 != 0) == (spec_bits(flags) & EXPECT_ANSWER_BIT
            != 0),
        spec_command_report(frame, flags)[1] & 0x7b == 0x50,
{
    let c = spec_command_report(frame, flags)[1];
    assert((0x50u8 & 0x80) == 0 && (0x50u8 & 0x04) == 0 && (0x50u8 & 0x7b) == 0x50) by (bit_vector);
    assert((0xd0u8 & 0x80) != 0 && (0xd0u8 & 0x04) == 0 && (0xd0u8 & 0x7b) == 0x50) by (bit_vector);
    assert((0x54u8 & 0x80) == 0 && (0x54u8 & 0x04) != 0 && (0x54u8 & 0x7b) == 0x50) by (bit_vector);
    assert((0xd4u8 & 0x80) != 0 && (0xd4u8 & 0x04) != 0 && (0xd4u8 & 0x7b) == 0x50) by (bit_vector);
}

} // verus!
