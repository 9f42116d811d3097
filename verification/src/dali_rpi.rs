//! The logic of the driver for DALI on a Raspberry Pi Pico, reached over a
//! serial line. A request goes out as an 8-byte block with a sequence
//! number; the device answers with 8-byte blocks that carry the sequence
//! number of the request they answer, or 0 for a bus event.
//!
//! The driver is a state machine: each step takes a request, the outcome
//! of a write, a timeout or bytes read, and tells what to write, whom to
//! answer and what to report.
use vstd::prelude::*;
use crate::dgw521::{DALIcmd, PendingCmd, is_driver_error};
use crate::driver::{DaliBusEventType, DaliFrame, DaliSendResult, spec_bit_length};
use crate::send_flags::{spec_bits, spec_priority_of_bits, SEND_TWICE_BIT, EXPECT_ANSWER_BIT};

verus! {

/// Buffered bytes older than this are dropped when new ones arrive
/// (microseconds).
pub const STALE_US: u64 = 200_000;
/// How long a request waits for its answer (microseconds).
pub const REQUEST_TIMEOUT_US: u64 = 1_000_000;

/// The bus event that a block from the device reports, if any: byte 1 is
/// the kind; for a frame, byte 3 is its length in bits and bytes 4 to 6
/// its data.
pub open spec fn spec_bytes_to_event(b: Seq<u8>) -> Option<DaliBusEventType> {
    if b[1] == 4 {
        if b[3] == 8 {
            Some(DaliBusEventType::Frame8(b[4]))
        } else if b[3] == 16 {
            Some(DaliBusEventType::Frame16([b[4], b[5]]))
        } else if b[3] == 24 {
            Some(DaliBusEventType::Frame24([b[4], b[5], b[6]]))
        } else {
            Some(DaliBusEventType::FramingError)
        }
    } else if b[1] == 6 {
        Some(DaliBusEventType::FramingError)
    } else if b[1] == 7 {
        Some(DaliBusEventType::BusPowerOff)
    } else if b[1] == 8 {
        Some(DaliBusEventType::BusPowerOn)
    } else {
        None
    }
}

/// The bus event of a block from the device.
pub fn bytes_to_event(bytes: &[u8]) -> (r: Option<DaliBusEventType>)
    requires
        bytes.len() >= 7,
    ensures
        r == spec_bytes_to_event(bytes@),
{
    if bytes[1] == 4 {
        if bytes[3] == 8 {
            Some(DaliBusEventType::Frame8(bytes[4]))
        } else if bytes[3] == 16 {
            Some(DaliBusEventType::Frame16([bytes[4], bytes[5]]))
        } else if bytes[3] == 24 {
            Some(DaliBusEventType::Frame24([bytes[4], bytes[5], bytes[6]]))
        } else {
            Some(DaliBusEventType::FramingError)
        }
    } else if bytes[1] == 6 {
        Some(DaliBusEventType::FramingError)
    } else if bytes[1] == 7 {
        Some(DaliBusEventType::BusPowerOff)
    } else if bytes[1] == 8 {
        Some(DaliBusEventType::BusPowerOn)
    } else {
        None
    }
}

/// The result that an answer block's code (byte 1) stands for: 2 sent, 3 an
/// answer (byte 4), 10 no answer in time.
pub open spec fn spec_reply_result(b: Seq<u8>) -> Option<DaliSendResult> {
    if b[1] == 2 {
        Some(DaliSendResult::Sent)
    } else if b[1] == 3 {
        Some(DaliSendResult::Answer(b[4]))
    } else if b[1] == 10 {
        Some(DaliSendResult::Timeout)
    } else {
        None
    }
}

/// The request block for `cmd` with sequence number `seq`: the sequence
/// number; bit 0 expect an answer, bit 1 send twice; the priority with 2
/// in bits 3 and up; the frame length in bits; the frame's bytes. `None`
/// for a 25-bit frame, which cannot be sent.
pub open spec fn spec_request_block(seq: u8, cmd: DALIcmd) -> Option<Seq<u8>> {
    let b = spec_bits(cmd.flags);
    let opts = ((if b & EXPECT_ANSWER_BIT != 0 {
        1int
    } else {
        0
    }) + (if b & SEND_TWICE_BIT != 0 {
        2int
    } else {
        0
    })) as u8;
    let prio = (spec_priority_of_bits(b) + 16) as u8;
    let len = spec_bit_length(cmd.data) as u8;
    match cmd.data {
        DaliFrame::Frame8(d) => Some(seq![seq, opts, prio, len, d, 0u8, 0u8, 0u8]),
        DaliFrame::Frame16(d) => Some(seq![seq, opts, prio, len, d[0], d[1], 0u8, 0u8]),
        DaliFrame::Frame24(d) => Some(seq![seq, opts, prio, len, d[0], d[1], d[2], 0u8]),
        DaliFrame::Frame25(_) => None,
    }
}

/// The request block for `cmd`, or `None` for a 25-bit frame.
pub fn request_block(seq: u8, cmd: &DALIcmd) -> (r: Option<[u8; 8]>)
    ensures
        match spec_request_block(seq, *cmd) {
            Some(s) => r matches Some(a) && a@ == s,
            None => r is None,
        },
{
    let opts: u8 = (if cmd.flags.expect_answer() {
        1u8
    } else {
        0
    }) + (if cmd.flags.send_twice() {
        2u8
    } else {
        0
    });
    let prio: u8 = cmd.flags.priority() as u8 + 16;
    let len: u8 = cmd.data.bit_length() as u8;
    let r = match cmd.data {
        DaliFrame::Frame8(d) => Some([seq, opts, prio, len, d, 0, 0, 0]),
        DaliFrame::Frame16(d) => Some([seq, opts, prio, len, d[0], d[1], 0, 0]),
        DaliFrame::Frame24(d) => Some([seq, opts, prio, len, d[0], d[1], d[2], 0]),
        DaliFrame::Frame25(_) => None,
    };
    proof {
        if let Some(a) = r {
            assert(a@ =~= spec_request_block(seq, *cmd)->0);
        }
    }
    r
}

/// The sequence number after `seq`: 1 to 255 in turn (0 marks bus events).
pub open spec fn spec_next_seq(seq: u8) -> u8 {
    if seq < 0xff {
        (seq + 1) as u8
    } else {
        1
    }
}

fn next_seq(seq: u8) -> (r: u8)
    ensures
        r == spec_next_seq(seq),
{
    if seq < 0xff {
        seq + 1
    } else {
        1
    }
}

/// What the request timer does.
#[derive(Debug, Clone, Copy, PartialEq, Eq, Structural)]
pub enum TimerOp {
    Keep,
    /// Start it, to run out after `REQUEST_TIMEOUT_US`
    Arm,
    Disarm,
}

/// What the driver does after a step.
#[derive(Debug)]
pub struct RpiOutput {
    /// Answer to a request
    pub reply: Option<(u64, DaliSendResult)>,
    /// A bus event to report
    pub event: Option<DaliBusEventType>,
    /// A request that got an answer the driver does not know; it is
    /// dropped unanswered
    pub dropped: Option<u64>,
    /// A block to write
    pub write: Option<[u8; 8]>,
    pub timer: TimerOp,
}

/// What happened.
#[derive(Debug)]
pub enum RpiEvent {
    Request(PendingCmd),
    /// The write of the block for a request ended, or failed with the text
    Written(Result<(), String>),
    /// The request timer ran out
    TimedOut,
    /// Bytes arrived at `now`
    Read { data: Vec<u8>, now: u64 },
}

/// The driver's state: the request waiting for its answer (sequence number
/// and identifier), the request whose block is being written, the next
/// sequence number, and the receive buffer with its fill level.
pub struct RpiMachine {
    pub current: Option<(u8, u64)>,
    pub writing: Option<(u8, u64)>,
    pub next_seq: u8,
    pub buf: Vec<u8>,
    pub pos: usize,
    pub last_rx_time: u64,
}

/// The machine is sound: a 16-byte buffer holding `pos` bytes.
pub open spec fn rpi_ok(m: RpiMachine) -> bool {
    m.buf@.len() == 16 && m.pos <= 16
}

/// The event can come: a request only when no request is under way, the
/// outcome of a write only while writing, bytes only as many as fit the
/// buffer and not from before the last receive time.
pub open spec fn rpi_event_fits(m: RpiMachine, e: RpiEvent) -> bool {
    match e {
        RpiEvent::Request(_) => m.current is None && m.writing is None,
        RpiEvent::Written(_) => m.writing is Some,
        RpiEvent::TimedOut => m.writing is None,
        RpiEvent::Read { data, now } => m.writing is None && data@.len() <= 16 - m.pos && now
            >= m.last_rx_time,
    }
}

/// An output that does nothing but `timer`.
pub open spec fn quiet(o: RpiOutput, timer: TimerOp) -> bool {
    o.reply is None && o.event is None && o.dropped is None && o.write is None && o.timer == timer
}

/// The buffer after bytes `data` arrive at `now` into buffer `buf` filled to
/// `pos`: the bytes go in after the buffered ones; when the buffered ones are
/// stale, the buffer is shifted down so that the new bytes come first.
pub open spec fn spec_receive(buf: Seq<u8>, pos: int, data: Seq<u8>, stale: bool) -> (Seq<u8>, int) {
    let b1 = buf.subrange(0, pos) + data + buf.subrange(pos + data.len(), 16);
    if stale {
        (b1.subrange(pos, 16) + b1.subrange(16 - pos, 16), data.len() as int)
    } else {
        (b1, pos + data.len())
    }
}

/// One step of the driver from `m` with event `e` to `n` with output `o`.
pub open spec fn spec_rpi_step(m: RpiMachine, e: RpiEvent, n: RpiMachine, o: RpiOutput) -> bool {
    match e {
        RpiEvent::Request(req) => {
            &&& n.current == m.current && n.next_seq == m.next_seq && n.buf@ == m.buf@ && n.pos
                == m.pos && n.last_rx_time == m.last_rx_time
            &&& match spec_request_block(m.next_seq, req.cmd) {
                None => {
                    &&& n.writing is None
                    &&& o.reply matches Some((id, r)) && id == req.id && is_driver_error(
                        r,
                        "25-bit frames not supported"@,
                    )
                    &&& o.event is None && o.dropped is None && o.write is None
                    &&& o.timer == TimerOp::Keep
                },
                Some(block) => {
                    &&& n.writing == Some((m.next_seq, req.id))
                    &&& o.write matches Some(w) && w@ == block
                    &&& o.reply is None && o.event is None && o.dropped is None
                    &&& o.timer == TimerOp::Keep
                },
            }
        },
        RpiEvent::Written(res) => {
            let (seq, id) = m.writing->0;
            &&& n.writing is None && n.buf@ == m.buf@ && n.pos == m.pos && n.last_rx_time
                == m.last_rx_time
            &&& match res {
                Ok(()) => {
                    &&& n.current == Some((seq, id))
                    &&& n.next_seq == spec_next_seq(m.next_seq)
                    &&& quiet(o, TimerOp::Arm)
                },
                Err(msg) => {
                    &&& n.current == m.current && n.next_seq == m.next_seq
                    &&& o.reply matches Some((i, r)) && i == id && is_driver_error(r, msg@)
                    &&& o.event is None && o.dropped is None && o.write is None
                    &&& o.timer == TimerOp::Keep
                },
            }
        },
        RpiEvent::TimedOut => {
            &&& n.current is None && n.writing == m.writing && n.next_seq == m.next_seq && n.buf@
                == m.buf@ && n.pos == m.pos && n.last_rx_time == m.last_rx_time
            &&& o.event is None && o.dropped is None && o.write is None
            &&& o.timer == TimerOp::Disarm
            &&& match m.current {
                Some((_, id)) => o.reply == Some((id, DaliSendResult::Timeout)),
                None => o.reply is None,
            }
        },
        RpiEvent::Read { data, now } => {
            let (b1, p1) = spec_receive(
                m.buf@,
                m.pos as int,
                data@,
                now - m.last_rx_time > STALE_US,
            );
            &&& n.writing == m.writing && n.next_seq == m.next_seq && n.last_rx_time
                == m.last_rx_time
            &&& o.write is None && o.timer == TimerOp::Keep
            &&& if p1 >= 8 {
                let answered = m.current matches Some((seq, _)) && seq == b1[0];
                &&& n.buf@ == b1.subrange(8, 16) + b1.subrange(8, 16)
                &&& n.pos == p1 - 8
                &&& if answered {
                    let id = (m.current->0).1;
                    &&& n.current is None
                    &&& match spec_reply_result(b1) {
                        Some(r) => o.reply == Some((id, r)) && o.dropped is None,
                        None => o.reply is None && o.dropped == Some(id),
                    }
                } else {
                    n.current == m.current && o.reply is None && o.dropped is None
                }
                &&& o.event == (if b1[0] == 0 {
                    spec_bytes_to_event(b1)
                } else {
                    None
                })
            } else {
                &&& n.buf@ == b1 && n.pos == p1 && n.current == m.current
                &&& o.reply is None && o.event is None && o.dropped is None
            }
        },
    }
}

impl RpiMachine {
    /// A driver with an empty buffer, at time `now`.
    pub fn new(now: u64) -> (m: RpiMachine)
        ensures
            rpi_ok(m),
            m.current is None && m.writing is None,
            m.next_seq == 1,
            m.pos == 0,
            m.last_rx_time == now,
    {
        let mut buf: Vec<u8> = Vec::new();
        let mut i: usize = 0;
        while i < 16
            invariant
                i <= 16,
                buf@.len() == i,
            decreases 16 - i,
        {
            buf.push(0);
            i = i + 1;
        }
        RpiMachine { current: None, writing: None, next_seq: 1, buf, pos: 0, last_rx_time: now }
    }

    /// One step: see `spec_rpi_step`.
    pub fn step(&mut self, e: RpiEvent) -> (o: RpiOutput)
        requires
            rpi_ok(*old(self)),
            rpi_event_fits(*old(self), e),
        ensures
            rpi_ok(*final(self)),
            spec_rpi_step(*old(self), e, *final(self), o),
    {
        match e {
            RpiEvent::Request(req) => {
                match request_block(self.next_seq, &req.cmd) {
                    None => RpiOutput {
                        reply: Some(
                            (req.id, DaliSendResult::DriverError("25-bit frames not supported".to_owned())),
                        ),
                        event: None,
                        dropped: None,
                        write: None,
                        timer: TimerOp::Keep,
                    },
                    Some(block) => {
                        self.writing = Some((self.next_seq, req.id));
                        RpiOutput {
                            reply: None,
                            event: None,
                            dropped: None,
                            write: Some(block),
                            timer: TimerOp::Keep,
                        }
                    },
                }
            },
            RpiEvent::Written(res) => {
                let (seq, id) = self.writing.unwrap();
                self.writing = None;
                match res {
                    Ok(()) => {
                        self.current = Some((seq, id));
                        self.next_seq = next_seq(self.next_seq);
                        RpiOutput {
                            reply: None,
                            event: None,
                            dropped: None,
                            write: None,
                            timer: TimerOp::Arm,
                        }
                    },
                    Err(msg) => RpiOutput {
                        reply: Some((id, DaliSendResult::DriverError(msg))),
                        event: None,
                        dropped: None,
                        write: None,
                        timer: TimerOp::Keep,
                    },
                }
            },
            RpiEvent::TimedOut => {
                let reply = match self.current {
                    Some((_, id)) => Some((id, DaliSendResult::Timeout)),
                    None => None,
                };
                self.current = None;
                RpiOutput { reply, event: None, dropped: None, write: None, timer: TimerOp::Disarm }
            },
            RpiEvent::Read { data, now } => self.receive(&data, now),
        }
    }

    fn receive(&mut self, data: &Vec<u8>, now: u64) -> (o: RpiOutput)
        requires
            rpi_ok(*old(self)),
            old(self).writing is None,
            data@.len() <= 16 - old(self).pos,
            now >= old(self).last_rx_time,
        ensures
            rpi_ok(*final(self)),
            spec_rpi_step(*old(self), RpiEvent::Read { data: *data, now }, *final(self), o),
    {
        let ghost b0 = self.buf@;
        let pos = self.pos;
        let mut i: usize = 0;
        while i < data.len()
            invariant
                i <= data.len(),
                data@.len() <= 16 - pos,
                pos == old(self).pos,
                self.pos == old(self).pos,
                self.current == old(self).current,
                self.writing == old(self).writing,
                self.next_seq == old(self).next_seq,
                self.last_rx_time == old(self).last_rx_time,
                self.buf@.len() == 16,
                forall|k: int| 0 <= k < pos ==> self.buf@[k] == b0[k],
                forall|k: int| 0 <= k < i ==> self.buf@[pos + k] == data@[k],
                forall|k: int| pos + data@.len() <= k < 16 ==> self.buf@[k] == b0[k],
                forall|k: int| pos + i <= k < 16 ==> self.buf@[k] == b0[k],
            decreases data.len() - i,
        {
            self.buf.set(pos + i, data[i]);
            i = i + 1;
        }
        let ghost b1 = b0.subrange(0, pos as int) + data@ + b0.subrange(pos + data@.len(), 16);
        assert(self.buf@ =~= b1);
        let stale = now - self.last_rx_time > STALE_US;
        if stale {
            let mut j: usize = 0;
            while j < 16 - pos
                invariant
                    j <= 16 - pos,
                    pos <= 16,
                    b1.len() == 16,
                    self.pos == old(self).pos,
                    self.current == old(self).current,
                    self.writing == old(self).writing,
                    self.next_seq == old(self).next_seq,
                    self.last_rx_time == old(self).last_rx_time,
                    self.buf@.len() == 16,
                    forall|k: int| 0 <= k < j ==> self.buf@[k] == b1[pos + k],
                    forall|k: int| j <= k < 16 ==> self.buf@[k] == b1[k],
                decreases 16 - pos - j,
            {
                let x = self.buf[pos + j];
                self.buf.set(j, x);
                j = j + 1;
            }
            assert(self.buf@ =~= b1.subrange(pos as int, 16) + b1.subrange(16 - pos, 16));
            self.pos = data.len();
        } else {
            self.pos = pos + data.len();
        }
        if self.pos < 8 {
            return RpiOutput { reply: None, event: None, dropped: None, write: None, timer: TimerOp::Keep };
        }
        let ghost b2 = self.buf@;
        let mut reply: Option<(u64, DaliSendResult)> = None;
        let mut dropped: Option<u64> = None;
        if let Some((seq, id)) = self.current {
            if seq == self.buf[0] {
                self.current = None;
                let code = self.buf[1];
                if code == 2 {
                    reply = Some((id, DaliSendResult::Sent));
                } else if code == 3 {
                    reply = Some((id, DaliSendResult::Answer(self.buf[4])));
                } else if code == 10 {
                    reply = Some((id, DaliSendResult::Timeout));
                } else {
                    dropped = Some(id);
                }
            }
        }
        let event = if self.buf[0] == 0 {
            bytes_to_event(self.buf.as_slice())
        } else {
            None
        };
        let p1 = self.pos;
        let ghost cur = self.current;
        let mut k: usize = 0;
        while k < 8
            invariant
                k <= 8,
                self.buf@.len() == 16,
                b2.len() == 16,
                self.pos == p1,
                8 <= p1 <= 16,
                self.current == cur,
                self.writing == old(self).writing,
                self.next_seq == old(self).next_seq,
                self.last_rx_time == old(self).last_rx_time,
                forall|x: int| 0 <= x < k ==> self.buf@[x] == b2[8 + x],
                forall|x: int| k <= x < 16 ==> self.buf@[x] == b2[x],
            decreases 8 - k,
        {
            let x = self.buf[8 + k];
            self.buf.set(k, x);
            k = k + 1;
        }
        assert(self.buf@ =~= b2.subrange(8, 16) + b2.subrange(8, 16));
        self.pos = self.pos - 8;
        RpiOutput { reply, event, dropped, write: None, timer: TimerOp::Keep }
    }
}

/// The answer codes: 2 means the frame was sent, 3 an answer (byte 4), and
/// 10 that no answer came in time; any other code is no known result.
pub proof fn lemma_reply_codes(b: Seq<u8>)
    requires
        b.len() >= 5,
    ensures
        b[1] == 2 ==> spec_reply_result(b) == Some(DaliSendResult::Sent),
        b[1] == 3 ==> spec_reply_result(b) == Some(DaliSendResult::Answer(b[4])),
        b[1] == 10 ==> spec_reply_result(b) == Some(DaliSendResult::Timeout),
        b[1] != 2 && b[1] != 3 && b[1] != 10 ==> spec_reply_result(b) is None,
{
}

/// A full answer block for the request waiting for its answer, with code 2,
/// settles that request with Sent; with code 10, with Timeout.
pub proof fn lemma_answer_block_settles(
    m: RpiMachine,
    data: Vec<u8>,
    now: u64,
    n: RpiMachine,
    o: RpiOutput,
    seq: u8,
    id: u64,
)
    requires
        m.current == Some((seq, id)),
        m.buf@.len() == 16,
        m.pos as int + data@.len() >= 8,
        m.pos <= 8,
        now - m.last_rx_time <= STALE_US,
        spec_rpi_step(m, RpiEvent::Read { data, now }, n, o),
        ({
            let (b1, p1) = spec_receive(m.buf@, m.pos as int, data@, false);
            b1[0] == seq
        }),
    ensures
        ({
            let (b1, p1) = spec_receive(m.buf@, m.pos as int, data@, false);
            &&& n.current is None
            &&& b1[1] == 2 ==> o.reply == Some((id, DaliSendResult::Sent))
            &&& b1[1] == 10 ==> o.reply == Some((id, DaliSendResult::Timeout))
            &&& b1[1] == 3 ==> o.reply == Some((id, DaliSendResult::Answer(b1[4])))
        }),
{
}

/// The event kinds of a block: 4 a frame whose length in bits is byte 3
/// (8, 16 or 24, with the data from byte 4; any other length a framing
/// error), 6 a framing error, 7 bus power off, 8 bus power on; other kinds
/// are no event.
pub proof fn lemma_event_kinds(b: Seq<u8>)
    requires
        b.len() >= 7,
    ensures
        b[1] == 4 && b[3] == 8 ==> spec_bytes_to_event(b) == Some(DaliBusEventType::Frame8(b[4])),
        b[1] == 4 && b[3] == 16 ==> spec_bytes_to_event(b) == Some(
            DaliBusEventType::Frame16([b[4], b[5]]),
        ),
        b[1] == 4 && b[3] == 24 ==> spec_bytes_to_event(b) == Some(
            DaliBusEventType::Frame24([b[4], b[5], b[6]]),
        ),
        b[1] == 4 && b[3] != 8 && b[3] != 16 && b[3] != 24 ==> spec_bytes_to_event(b) == Some(
            DaliBusEventType::FramingError,
        ),
        b[1] == 6 ==> spec_bytes_to_event(b) == Some(DaliBusEventType::FramingError),
        b[1] == 7 ==> spec_bytes_to_event(b) == Some(DaliBusEventType::BusPowerOff),
        b[1] == 8 ==> spec_bytes_to_event(b) == Some(DaliBusEventType::BusPowerOn),
        b[1] != 4 && b[1] != 6 && b[1] != 7 && b[1] != 8 ==> spec_bytes_to_event(b) is None,
{
}

} // verus!
