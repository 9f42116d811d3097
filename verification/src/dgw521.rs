//! The logic of the driver for the ICP DAS DGW-521 DALI gateway, which is
//! reached over Modbus. The gateway has eight command slots: a command
//! written to a slot runs, and a bit of the status mask tells when a slot
//! has its result. Commands go round the slots in order; the slot of the
//! oldest command not yet answered and the slot for the next command are
//! kept as counters that wrap.
//!
//! Sending is a state machine: each step takes what the last Modbus
//! operation brought and tells the next operation, with the answer to a
//! request when one is ready. The bus monitor reads the gateway's ring
//! buffer of bus events.
use vstd::prelude::*;
use vstd::multiset::Multiset;
use crate::driver::{DaliBusEventType, DaliFrame, DaliSendResult};
use crate::send_flags::{Flags, spec_bits, EXPECT_ANSWER_BIT};

verus! {

pub const CMD_STATUS_1: u16 = 0;
pub const CMD_STATUS_IDLE: u16 = 0;
pub const CMD_STATUS_PENDING: u16 = 1;
pub const CMD_STATUS_EXECUTING: u16 = 2;
pub const CMD_STATUS_NO_ANSWER: u16 = 3;
pub const CMD_STATUS_TIMEOUT: u16 = 4;
pub const CMD_STATUS_ANSWER: u16 = 5;
pub const CMD_STATUS_INVALID_DATA: u16 = 6;
pub const CMD_STATUS_EARLY: u16 = 7;
pub const DALI_CMD_1: u16 = 32;
pub const CMD_STATUS_MASK: u16 = 256;
pub const MONITOR_BUFFER_INDEX: u16 = 322;
pub const MONITOR_BUFFER_START: u16 = 1024;

/// A frame to send with its options.
#[derive(Debug, Clone, Copy)]
pub struct DALIcmd {
    pub data: DaliFrame,
    pub flags: Flags,
}

/// A counter of command slots; slot `i` of the gateway is the counter
/// modulo 8.
#[derive(Debug, Clone, Copy, PartialEq, Eq, Structural)]
pub struct SlotIndex(pub u16);

impl SlotIndex {
    pub fn new(s: u16) -> (r: SlotIndex)
        ensures
            r.0 == s,
    {
        SlotIndex(s)
    }

    /// The gateway slot.
    pub fn slot(&self) -> (r: usize)
        ensures
            r == self.0 % 8,
    {
        (self.0 % 8) as usize
    }

    /// The bit of the slot in the status mask.
    pub fn mask(&self) -> (r: u16)
        ensures
            r == 1u16 << (self.0 % 8),
    {
        1u16 << (self.0 % 8)
    }

    /// Moves the counter on by `b`, wrapping.
    pub fn add(&mut self, b: u16)
        ensures
            final(self).0 == (old(self).0 + b) % 0x10000,
    {
        self.0 = self.0.wrapping_add(b);
    }

    /// How many counts `self` is ahead of `b`, wrapping.
    pub fn diff(self, b: SlotIndex) -> (r: u16)
        ensures
            r == (self.0 - b.0) % 0x10000,
    {
        self.0.wrapping_sub(b.0)
    }
}

/// The result is a driver error with text `text`.
pub open spec fn is_driver_error(r: DaliSendResult, text: Seq<char>) -> bool {
    r matches DaliSendResult::DriverError(s) && s@ == text
}

/// `r` is the result of a command whose slot's status register reads `res`:
/// the low byte is the command's state, the high byte an answer.
pub open spec fn status_result_is(res: u16, expect_answer: bool, r: DaliSendResult) -> bool {
    let status = res % 256;
    let answer = (res / 256) as u8;
    if status == CMD_STATUS_EXECUTING || status == CMD_STATUS_PENDING {
        is_driver_error(r, "Command not finished"@)
    } else if status == CMD_STATUS_NO_ANSWER {
        if expect_answer {
            r == DaliSendResult::Answer(answer)
        } else {
            r is Sent
        }
    } else if status == CMD_STATUS_INVALID_DATA {
        r is Framing
    } else if status == CMD_STATUS_EARLY || status == CMD_STATUS_TIMEOUT {
        r is Timeout
    } else if status == CMD_STATUS_ANSWER {
        r == DaliSendResult::Answer(answer)
    } else {
        is_driver_error(r, "Unknown status"@)
    }
}

/// The result of a command from its slot's status register.
pub fn status_result(res: u16, expect_answer: bool) -> (r: DaliSendResult)
    ensures
        status_result_is(res, expect_answer, r),
{
    let status = res % 256;
    let answer = (res / 256) as u8;
    if status == CMD_STATUS_EXECUTING || status == CMD_STATUS_PENDING {
        DaliSendResult::DriverError("Command not finished".to_owned())
    } else if status == CMD_STATUS_NO_ANSWER {
        if expect_answer {
            DaliSendResult::Answer(answer)
        } else {
            DaliSendResult::Sent
        }
    } else if status == CMD_STATUS_INVALID_DATA {
        DaliSendResult::Framing
    } else if status == CMD_STATUS_EARLY || status == CMD_STATUS_TIMEOUT {
        DaliSendResult::Timeout
    } else if status == CMD_STATUS_ANSWER {
        DaliSendResult::Answer(answer)
    } else {
        DaliSendResult::DriverError("Unknown status".to_owned())
    }
}

/// A request to send: an identifier that the answer goes back with, and
/// the command.
#[derive(Debug, Clone, Copy)]
pub struct PendingCmd {
    pub id: u64,
    pub cmd: DALIcmd,
}

/// The requests in the gateway's slots, and the counters of the oldest
/// unanswered slot and of the next slot to fill.
pub struct SendState {
    pub pending: Vec<Option<PendingCmd>>,
    pub oldest_slot: SlotIndex,
    pub next_slot: SlotIndex,
}

/// How many slots are in use: the counters' distance, wrapping.
pub open spec fn in_use(oldest: u16, next: u16) -> int {
    (next - oldest) % 0x10000
}

/// Eight slots, at most eight of them in use.
pub open spec fn slots_ok(pending: Seq<Option<PendingCmd>>, oldest: u16, next: u16) -> bool {
    pending.len() == 8 && in_use(oldest, next) <= 8
}

/// The oldest slot in use has its result, by the status mask.
pub open spec fn oldest_finished(oldest: u16, next: u16, mask: u16) -> bool {
    in_use(oldest, next) != 0 && (1u16 << (oldest % 8)) & mask != 0
}

/// A slot is free for the next command, by the status mask.
pub open spec fn next_free(oldest: u16, next: u16, mask: u16) -> bool {
    in_use(oldest, next) < 8 && (1u16 << (next % 8)) & mask != 0
}

/// The slots after taking finished slots off, oldest first, up to the first
/// that holds a request: the pending requests, the oldest counter, and that
/// request if there is one.
pub open spec fn spec_drain(pending: Seq<Option<PendingCmd>>, oldest: u16, next: u16, mask: u16) -> (
    Seq<Option<PendingCmd>>,
    u16,
    Option<PendingCmd>,
)
    decreases in_use(oldest, next),
{
    if slots_ok(pending, oldest, next) && oldest_finished(oldest, next, mask) {
        let slot = (oldest % 8) as int;
        let o2 = ((oldest + 1) % 0x10000) as u16;
        match pending[slot] {
            Some(req) => (pending.update(slot, None), o2, Some(req)),
            None => spec_drain(pending.update(slot, None), o2, next, mask),
        }
    } else {
        (pending, oldest, None)
    }
}

impl SendState {
    pub fn new() -> (s: SendState)
        ensures
            s.pending@ == Seq::new(8, |i: int| None::<PendingCmd>),
            s.oldest_slot.0 == 0,
            s.next_slot.0 == 0,
    {
        let mut pending: Vec<Option<PendingCmd>> = Vec::new();
        let mut i: usize = 0;
        while i < 8
            invariant
                i <= 8,
                pending@ == Seq::new(i as nat, |j: int| None::<PendingCmd>),
            decreases 8 - i,
        {
            pending.push(None);
            i = i + 1;
        }
        SendState { pending, oldest_slot: SlotIndex::new(0), next_slot: SlotIndex::new(0) }
    }

    /// Takes finished slots off: see `spec_drain`.
    #[verifier::rlimit(40)]
    fn drain(&mut self, mask: u16) -> (r: Option<PendingCmd>)
        requires
            slots_ok(old(self).pending@, old(self).oldest_slot.0, old(self).next_slot.0),
        ensures
            slots_ok(final(self).pending@, final(self).oldest_slot.0, final(self).next_slot.0),
            final(self).next_slot == old(self).next_slot,
            (final(self).pending@, final(self).oldest_slot.0, r) == spec_drain(
                old(self).pending@,
                old(self).oldest_slot.0,
                old(self).next_slot.0,
                mask,
            ),
    {
        loop
            invariant
                slots_ok(self.pending@, self.oldest_slot.0, self.next_slot.0),
                self.next_slot == old(self).next_slot,
                spec_drain(self.pending@, self.oldest_slot.0, self.next_slot.0, mask) == spec_drain(
                    old(self).pending@,
                    old(self).oldest_slot.0,
                    old(self).next_slot.0,
                    mask,
                ),
            decreases in_use(self.oldest_slot.0, self.next_slot.0),
        {
            let used = self.next_slot.diff(self.oldest_slot);
            if !(used != 0 && (self.oldest_slot.mask() & mask) != 0) {
                return None;
            }
            let slot = self.oldest_slot.slot();
            let taken = self.pending[slot];
            self.pending.set(slot, None);
            self.oldest_slot.add(1);
            if let Some(req) = taken {
                return Some(req);
            }
        }
    }
}

/// Where sending stands.
#[derive(Debug, Clone, Copy)]
pub enum SendPhase {
    /// Nothing to do; waiting for a request
    Idle,
    /// Reading the status mask
    ReadMask,
    /// Reading the status of the slot of `req`
    ReadStatus { req: PendingCmd },
    /// Writing `req` to the next slot
    Write { req: PendingCmd },
    /// Looking for another request
    Receive,
    /// Waiting before the next round
    Sleep,
    /// About to take further finished slots off
    Drain,
}

/// What the last operation brought.
#[derive(Debug)]
pub enum SendEvent {
    /// A request arrived
    Request(PendingCmd),
    /// The status mask, or `None` when it could not be read
    Mask(Option<u16>),
    /// A slot's status register, or the error text
    Status(Result<u16, String>),
    /// A command was written, or the error text
    Written(Result<(), String>),
    /// Another request, if one was waiting
    Received(Option<PendingCmd>),
    /// The wait is over
    Slept,
    /// Nothing happened; the machine goes on
    Continued,
}

/// The next operation.
#[derive(Debug, Clone, Copy)]
pub enum SendOp {
    ReadMask,
    ReadStatus { register: u16 },
    Write { register: u16, value: u16 },
    TryRecv,
    Sleep,
    /// No operation; step again with `Continued`
    Continue,
    /// Sending is over; the request `dropped`, if any, got no slot and is
    /// dropped unanswered
    Done { dropped: Option<u64> },
}

/// The sending machine: the slots, the phase, the request waiting for a
/// slot, and the last status mask.
pub struct SendMachine {
    pub slots: SendState,
    pub phase: SendPhase,
    pub incoming: Option<PendingCmd>,
    pub mask: u16,
}

/// The machine is sound: the slots are, and a command is written only when
/// a slot is free.
pub open spec fn machine_ok(m: SendMachine) -> bool {
    &&& slots_ok(m.slots.pending@, m.slots.oldest_slot.0, m.slots.next_slot.0)
    &&& m.phase is Write ==> in_use(m.slots.oldest_slot.0, m.slots.next_slot.0) < 8
}

/// The event is one that the phase waits for.
pub open spec fn event_fits(phase: SendPhase, event: SendEvent) -> bool {
    match (phase, event) {
        (SendPhase::Idle, SendEvent::Request(_)) => true,
        (SendPhase::ReadMask, SendEvent::Mask(_)) => true,
        (SendPhase::ReadStatus { .. }, SendEvent::Status(_)) => true,
        (SendPhase::Write { .. }, SendEvent::Written(_)) => true,
        (SendPhase::Receive, SendEvent::Received(_)) => true,
        (SendPhase::Sleep, SendEvent::Slept) => true,
        (SendPhase::Drain, SendEvent::Continued) => true,
        _ => false,
    }
}

/// The 16-bit register value of a frame, first byte high.
pub open spec fn frame_value(f: [u8; 2]) -> u16 {
    (f[0] as int * 256 + f[1] as int) as u16
}

/// The fill step, from the slots `(pending, oldest, next)`, the request
/// waiting for a slot and the mask, to the machine `m` after, the answer
/// `reply` and the operation `op`: a free slot takes the waiting request (a
/// 16-bit frame is written to it; any other frame is answered with an
/// error and its slot skipped); with no free slot or no request, sending is
/// over when no slot is in use, else it waits.
pub open spec fn spec_fill(
    pending: Seq<Option<PendingCmd>>,
    oldest: u16,
    next: u16,
    incoming: Option<PendingCmd>,
    mask: u16,
    m: SendMachine,
    reply: Option<(u64, DaliSendResult)>,
    op: SendOp,
) -> bool {
    &&& m.mask == mask
    &&& m.slots.oldest_slot.0 == oldest
    &&& if next_free(oldest, next, mask) && incoming is Some {
        let req = incoming->0;
        &&& m.incoming is None
        &&& match req.cmd.data {
            DaliFrame::Frame16(f) => {
                &&& m.phase == SendPhase::Write { req }
                &&& m.slots.pending@ == pending
                &&& m.slots.next_slot.0 == next
                &&& reply is None
                &&& op == SendOp::Write {
                    register: (DALI_CMD_1 + next % 8) as u16,
                    value: frame_value(f),
                }
            },
            _ => {
                &&& m.phase == SendPhase::Receive
                &&& m.slots.pending@ == pending
                &&& m.slots.next_slot.0 == (next + 1) % 0x10000
                &&& reply matches Some((id, r)) && id == req.id && is_driver_error(
                    r,
                    "Only 16 bit frames supported"@,
                )
                &&& op == SendOp::TryRecv
            },
        }
    } else {
        &&& m.slots.pending@ == pending
        &&& m.slots.next_slot.0 == next
        &&& m.incoming == incoming
        &&& reply is None
        &&& if in_use(oldest, next) == 0 {
            m.phase == SendPhase::Idle && op == SendOp::Done {
                dropped: match incoming {
                    Some(req) => Some(req.id),
                    None => None,
                },
            }
        } else {
            m.phase == SendPhase::Sleep && op == SendOp::Sleep
        }
    }
}

/// The drain step: finished slots are taken off; the first that holds a
/// request has its status read, and with none the fill step follows.
pub open spec fn spec_after_drain(
    pending: Seq<Option<PendingCmd>>,
    oldest: u16,
    next: u16,
    incoming: Option<PendingCmd>,
    mask: u16,
    m: SendMachine,
    reply: Option<(u64, DaliSendResult)>,
    op: SendOp,
) -> bool {
    let (p2, o2, found) = spec_drain(pending, oldest, next, mask);
    match found {
        Some(req) => {
            &&& m.phase == SendPhase::ReadStatus { req }
            &&& m.slots.pending@ == p2
            &&& m.slots.oldest_slot.0 == o2
            &&& m.slots.next_slot.0 == next
            &&& m.incoming == incoming
            &&& m.mask == mask
            &&& op == SendOp::ReadStatus { register: (CMD_STATUS_1 + (o2 + 7) % 8) as u16 }
            &&& reply is None
        },
        None => spec_fill(p2, o2, next, incoming, mask, m, reply, op),
    }
}

/// One step of the machine from `m` with `event` to `n`, with the answer
/// `reply` and the next operation `op`. A mask that could not be read is
/// read again; a failed status read or write answers its request with the
/// error and starts over from the mask.
pub open spec fn spec_send_step(
    m: SendMachine,
    event: SendEvent,
    n: SendMachine,
    reply: Option<(u64, DaliSendResult)>,
    op: SendOp,
) -> bool {
    let pending = m.slots.pending@;
    let oldest = m.slots.oldest_slot.0;
    let next = m.slots.next_slot.0;
    let same_slots = n.slots.pending@ == pending && n.slots.oldest_slot == m.slots.oldest_slot
        && n.slots.next_slot == m.slots.next_slot;
    match event {
        SendEvent::Request(req) => {
            &&& same_slots
            &&& n.incoming == Some(req)
            &&& n.mask == m.mask
            &&& n.phase == SendPhase::ReadMask
            &&& reply is None
            &&& op == SendOp::ReadMask
        },
        SendEvent::Mask(None) => {
            &&& same_slots
            &&& n.incoming == m.incoming
            &&& n.mask == m.mask
            &&& n.phase == SendPhase::ReadMask
            &&& reply is None
            &&& op == SendOp::ReadMask
        },
        SendEvent::Mask(Some(mask)) => spec_after_drain(
            pending,
            oldest,
            next,
            m.incoming,
            mask,
            n,
            reply,
            op,
        ),
        SendEvent::Status(res) => {
            let req = m.phase->ReadStatus_req;
            match res {
                Err(msg) => {
                    &&& same_slots
                    &&& n.incoming == m.incoming
                    &&& n.mask == m.mask
                    &&& n.phase == SendPhase::ReadMask
                    &&& reply matches Some((id, r)) && id == req.id && is_driver_error(r, msg@)
                    &&& op == SendOp::ReadMask
                },
                Ok(v) => {
                    &&& same_slots
                    &&& n.incoming == m.incoming
                    &&& n.mask == m.mask
                    &&& n.phase == SendPhase::Drain
                    &&& reply matches Some((id, r)) && id == req.id && status_result_is(
                        v,
                        spec_bits(req.cmd.flags) & EXPECT_ANSWER_BIT != 0,
                        r,
                    )
                    &&& op == SendOp::Continue
                },
            }
        },
        SendEvent::Written(res) => {
            let req = m.phase->Write_req;
            match res {
                Err(msg) => {
                    &&& same_slots
                    &&& n.incoming == m.incoming
                    &&& n.mask == m.mask
                    &&& n.phase == SendPhase::ReadMask
                    &&& reply matches Some((id, r)) && id == req.id && is_driver_error(r, msg@)
                    &&& op == SendOp::ReadMask
                },
                Ok(()) => {
                    &&& n.slots.pending@ == pending.update((next % 8) as int, Some(req))
                    &&& n.slots.oldest_slot == m.slots.oldest_slot
                    &&& n.slots.next_slot.0 == (next + 1) % 0x10000
                    &&& n.incoming == m.incoming
                    &&& n.mask == m.mask
                    &&& n.phase == SendPhase::Receive
                    &&& reply is None
                    &&& op == SendOp::TryRecv
                },
            }
        },
        SendEvent::Received(r) => spec_fill(pending, oldest, next, r, m.mask, n, reply, op),
        SendEvent::Continued => spec_after_drain(
            pending,
            oldest,
            next,
            m.incoming,
            m.mask,
            n,
            reply,
            op,
        ),
        SendEvent::Slept => {
            &&& same_slots
            &&& n.incoming == m.incoming
            &&& n.mask == m.mask
            &&& n.phase == SendPhase::ReadMask
            &&& reply is None
            &&& op == SendOp::ReadMask
        },
    }
}

/// The identifier of a request, as a multiset of none or one.
pub open spec fn opt_id(o: Option<PendingCmd>) -> Multiset<u64> {
    match o {
        Some(r) => Multiset::singleton(r.id),
        None => Multiset::empty(),
    }
}

/// The identifiers of the requests in the slots.
pub open spec fn slot_ids(p: Seq<Option<PendingCmd>>) -> Multiset<u64>
    decreases p.len(),
{
    if p.len() == 0 {
        Multiset::empty()
    } else {
        slot_ids(p.drop_last()).add(opt_id(p.last()))
    }
}

/// The request that the phase works on, if any.
pub open spec fn phase_req(phase: SendPhase) -> Option<PendingCmd> {
    match phase {
        SendPhase::ReadStatus { req } => Some(req),
        SendPhase::Write { req } => Some(req),
        _ => None,
    }
}

/// The requests that the machine holds and still owes an answer: those in
/// the slots, the one its phase works on, and the one waiting for a slot
/// (once sending is over, that one was given up).
pub open spec fn held_ids(m: SendMachine) -> Multiset<u64> {
    slot_ids(m.slots.pending@).add(opt_id(phase_req(m.phase))).add(
        if m.phase is Idle {
            Multiset::empty()
        } else {
            opt_id(m.incoming)
        },
    )
}

/// The request that an event hands the machine, if any.
pub open spec fn taken_ids(event: SendEvent) -> Multiset<u64> {
    match event {
        SendEvent::Request(req) => Multiset::singleton(req.id),
        SendEvent::Received(Some(req)) => Multiset::singleton(req.id),
        _ => Multiset::empty(),
    }
}

/// The requests that a step answers, or gives up when sending is over.
pub open spec fn settled_ids(reply: Option<(u64, DaliSendResult)>, op: SendOp) -> Multiset<u64> {
    (match reply {
        Some((id, _)) => Multiset::singleton(id),
        None => Multiset::empty(),
    }).add(
        match op {
            SendOp::Done { dropped: Some(id) } => Multiset::singleton(id),
            _ => Multiset::empty(),
        },
    )
}

/// Slot `i` lies among the slots in use, from the oldest on.
pub open spec fn in_window(oldest: u16, next: u16, i: int) -> bool {
    (i - oldest as int) % 8 < in_use(oldest, next)
}

/// The slots not in use hold no request.
pub open spec fn slots_clean(p: Seq<Option<PendingCmd>>, oldest: u16, next: u16) -> bool {
    forall|i: int| 0 <= i < 8 && !in_window(oldest, next, i) ==> #[trigger] p[i] is None
}

/// The machine keeps its requests apart: it is sound, the slots not in use
/// hold no request, and while it writes a request or looks for another,
/// no request waits for a slot.
pub open spec fn send_inv(m: SendMachine) -> bool {
    &&& machine_ok(m)
    &&& slots_clean(m.slots.pending@, m.slots.oldest_slot.0, m.slots.next_slot.0)
    &&& (m.phase is Write || m.phase is Receive) ==> m.incoming is None
}

proof fn lemma_slot_ids_update(p: Seq<Option<PendingCmd>>, i: int, v: Option<PendingCmd>)
    requires
        0 <= i < p.len(),
    ensures
        slot_ids(p.update(i, v)).add(opt_id(p[i])) == slot_ids(p).add(opt_id(v)),
    decreases p.len(),
{
    broadcast use vstd::multiset::group_multiset_axioms;
    let q = p.update(i, v);
    if i == p.len() - 1 {
        assert(q.drop_last() =~= p.drop_last());
        assert(slot_ids(q) == slot_ids(p.drop_last()).add(opt_id(v)));
        assert(slot_ids(q).add(opt_id(p[i])) =~= slot_ids(p).add(opt_id(v)));
    } else {
        let a = slot_ids(p.drop_last().update(i, v));
        let b = slot_ids(p.drop_last());
        lemma_slot_ids_update(p.drop_last(), i, v);
        assert(p.drop_last()[i] == p[i]);
        assert(a.add(opt_id(p[i])) == b.add(opt_id(v)));
        assert(q.drop_last() =~= p.drop_last().update(i, v));
        assert(q.last() == p.last());
        assert(slot_ids(q) == a.add(opt_id(p.last())));
        assert(slot_ids(p) == b.add(opt_id(p.last())));
        assert forall|x: u64| #[trigger] slot_ids(q).add(opt_id(p[i])).count(x) == slot_ids(p).add(
            opt_id(v),
        ).count(x) by {
            assert(a.add(opt_id(p[i])).count(x) == b.add(opt_id(v)).count(x));
        }
        assert(slot_ids(q).add(opt_id(p[i])) =~= slot_ids(p).add(opt_id(v)));
    }
}

/// The slot of a counter and the distance between counters agree modulo 8.
proof fn lemma_counter_slots(oldest: u16, next: u16)
    ensures
        (next as int % 8 - oldest as int) % 8 == in_use(oldest, next) % 8,
        (((oldest + 1) % 0x10000) as int % 8) == (oldest as int % 8 + 1) % 8,
        in_use(oldest, next) != 0 ==> in_use(((oldest + 1) % 0x10000) as u16, next) == in_use(
            oldest,
            next,
        ) - 1,
        in_use(oldest, next) < 8 ==> in_use(oldest, ((next + 1) % 0x10000) as u16) == in_use(
            oldest,
            next,
        ) + 1,
{
    assert((next as int % 8 - oldest as int) % 8 == ((next as int - oldest as int) % 0x10000) % 8)
        by (nonlinear_arith);
    assert((((oldest + 1) % 0x10000) as int % 8) == (oldest as int % 8 + 1) % 8) by (nonlinear_arith);
}

/// A slot outside the slots in use once the oldest is taken off was
/// outside them before, unless it is the slot taken off.
proof fn lemma_window_after_take(oldest: u16, next: u16, i: int)
    requires
        in_use(oldest, next) != 0,
        0 <= i < 8,
        i != oldest % 8,
        !in_window(((oldest + 1) % 0x10000) as u16, next, i),
    ensures
        !in_window(oldest, next, i),
{
    lemma_counter_slots(oldest, next);
    let o2 = ((oldest + 1) % 0x10000) as u16;
    let j = (i - oldest as int) % 8;
    assert(o2 as int % 8 == (oldest as int % 8 + 1) % 8);
    assert((i - o2 as int) % 8 == (i - o2 as int % 8) % 8) by (nonlinear_arith);
    assert((i - oldest as int) % 8 == (i - oldest as int % 8) % 8) by (nonlinear_arith);
    assert(j != 0);
    assert((i - o2 as int) % 8 == j - 1);
}

proof fn lemma_slot_ids_none(p: Seq<Option<PendingCmd>>, k: int)
    requires
        0 <= k <= p.len(),
        forall|i: int| 0 <= i < p.len() ==> #[trigger] p[i] is None,
    ensures
        slot_ids(p.take(k)) =~= Multiset::<u64>::empty(),
    decreases k,
{
    broadcast use vstd::multiset::group_multiset_axioms;
    if k > 0 {
        lemma_slot_ids_none(p, k - 1);
        assert(p.take(k).drop_last() =~= p.take(k - 1));
        assert(p.take(k).last() == p[k - 1]);
    }
}

proof fn lemma_drain_settles(p: Seq<Option<PendingCmd>>, oldest: u16, next: u16, mask: u16)
    requires
        slots_ok(p, oldest, next),
        slots_clean(p, oldest, next),
    ensures
        ({
            let (p2, o2, found) = spec_drain(p, oldest, next, mask);
            &&& slots_ok(p2, o2, next)
            &&& slots_clean(p2, o2, next)
            &&& slot_ids(p2).add(opt_id(found)) == slot_ids(p)
        }),
    decreases in_use(oldest, next),
{
    broadcast use vstd::multiset::group_multiset_axioms;
    if oldest_finished(oldest, next, mask) {
        let slot = (oldest % 8) as int;
        let o2 = ((oldest + 1) % 0x10000) as u16;
        let p1 = p.update(slot, None);
        lemma_counter_slots(oldest, next);
        lemma_slot_ids_update(p, slot, None);
        assert forall|i: int| 0 <= i < 8 && !in_window(o2, next, i) implies #[trigger] p1[i] is None by {
            if i != slot {
                lemma_window_after_take(oldest, next, i);
            }
        }
        match p[slot] {
            Some(req) => {
                assert(slot_ids(p1).add(opt_id(p[slot])) =~= slot_ids(p));
            },
            None => {
                assert(slot_ids(p1) =~= slot_ids(p1).add(opt_id(p[slot])));
                assert(slot_ids(p1) =~= slot_ids(p));
                lemma_drain_settles(p1, o2, next, mask);
            },
        }
    } else {
        assert(slot_ids(p).add(opt_id(None)) =~= slot_ids(p));
    }
}

proof fn lemma_fill_settles(
    p: Seq<Option<PendingCmd>>,
    oldest: u16,
    next: u16,
    incoming: Option<PendingCmd>,
    mask: u16,
    n: SendMachine,
    reply: Option<(u64, DaliSendResult)>,
    op: SendOp,
)
    requires
        slots_ok(p, oldest, next),
        slots_clean(p, oldest, next),
        spec_fill(p, oldest, next, incoming, mask, n, reply, op),
        machine_ok(n),
    ensures
        send_inv(n),
        held_ids(n).add(settled_ids(reply, op)) == slot_ids(p).add(opt_id(incoming)),
{
    broadcast use vstd::multiset::group_multiset_axioms;
    lemma_counter_slots(oldest, next);
    if next_free(oldest, next, mask) && incoming is Some {
        match incoming->0.cmd.data {
            DaliFrame::Frame16(f) => {
                assert(held_ids(n).add(settled_ids(reply, op)) =~= slot_ids(p).add(opt_id(incoming)));
            },
            _ => {
                let n2 = ((next + 1) % 0x10000) as u16;
                assert forall|i: int| 0 <= i < 8 && !in_window(oldest, n2, i) implies #[trigger] p[i] is None by {
                }
                assert(held_ids(n).add(settled_ids(reply, op)) =~= slot_ids(p).add(opt_id(incoming)));
            },
        }
    } else {
        assert(held_ids(n).add(settled_ids(reply, op)) =~= slot_ids(p).add(opt_id(incoming)));
    }
}

proof fn lemma_after_drain_settles(
    p: Seq<Option<PendingCmd>>,
    oldest: u16,
    next: u16,
    incoming: Option<PendingCmd>,
    mask: u16,
    n: SendMachine,
    reply: Option<(u64, DaliSendResult)>,
    op: SendOp,
)
    requires
        slots_ok(p, oldest, next),
        slots_clean(p, oldest, next),
        spec_after_drain(p, oldest, next, incoming, mask, n, reply, op),
        machine_ok(n),
    ensures
        send_inv(n),
        held_ids(n).add(settled_ids(reply, op)) == slot_ids(p).add(opt_id(incoming)),
{
    broadcast use vstd::multiset::group_multiset_axioms;
    lemma_drain_settles(p, oldest, next, mask);
    let (p2, o2, found) = spec_drain(p, oldest, next, mask);
    match found {
        Some(req) => {
            assert(held_ids(n).add(settled_ids(reply, op)) =~= slot_ids(p).add(opt_id(incoming)));
        },
        None => {
            assert(slot_ids(p2) =~= slot_ids(p));
            lemma_fill_settles(p2, o2, next, incoming, mask, n, reply, op);
        },
    }
}

/// Every request that the sending machine takes is settled exactly once:
/// over each step, the requests it holds, together with those the step
/// answers or gives up (when sending is over with a request that found no
/// slot), are those it held and those the step handed it. The machine
/// keeps `send_inv` doing so.
pub proof fn lemma_send_step_settles(
    m: SendMachine,
    event: SendEvent,
    n: SendMachine,
    reply: Option<(u64, DaliSendResult)>,
    op: SendOp,
)
    requires
        send_inv(m),
        event_fits(m.phase, event),
        spec_send_step(m, event, n, reply, op),
        machine_ok(n),
    ensures
        send_inv(n),
        held_ids(n).add(settled_ids(reply, op)) == held_ids(m).add(taken_ids(event)),
{
    broadcast use vstd::multiset::group_multiset_axioms;
    let p = m.slots.pending@;
    let oldest = m.slots.oldest_slot.0;
    let next = m.slots.next_slot.0;
    match event {
        SendEvent::Mask(Some(mask)) => {
            lemma_after_drain_settles(p, oldest, next, m.incoming, mask, n, reply, op);
            assert(held_ids(n).add(settled_ids(reply, op)) =~= held_ids(m).add(taken_ids(event)));
        },
        SendEvent::Continued => {
            lemma_after_drain_settles(p, oldest, next, m.incoming, m.mask, n, reply, op);
            assert(held_ids(n).add(settled_ids(reply, op)) =~= held_ids(m).add(taken_ids(event)));
        },
        SendEvent::Received(r) => {
            lemma_fill_settles(p, oldest, next, r, m.mask, n, reply, op);
            assert(held_ids(n).add(settled_ids(reply, op)) =~= held_ids(m).add(taken_ids(event)));
        },
        SendEvent::Written(Ok(())) => {
            let req = m.phase->Write_req;
            let slot = (next % 8) as int;
            lemma_counter_slots(oldest, next);
            assert(!in_window(oldest, next, slot));
            lemma_slot_ids_update(p, slot, Some(req));
            let n2 = ((next + 1) % 0x10000) as u16;
            assert forall|i: int| 0 <= i < 8 && !in_window(oldest, n2, i) implies #[trigger] n.slots.pending@[i] is None by {
            }
            assert(held_ids(n).add(settled_ids(reply, op)) =~= held_ids(m).add(taken_ids(event)));
        },
        _ => {
            assert(held_ids(n).add(settled_ids(reply, op)) =~= held_ids(m).add(taken_ids(event)));
        },
    }
}

impl SendMachine {
    /// A machine with empty slots, waiting for a request.
    pub fn new() -> (m: SendMachine)
        ensures
            machine_ok(m),
            send_inv(m),
            m.phase == SendPhase::Idle,
            m.incoming is None,
            in_use(m.slots.oldest_slot.0, m.slots.next_slot.0) == 0,
            held_ids(m) == Multiset::<u64>::empty(),
    {
        let m = SendMachine { slots: SendState::new(), phase: SendPhase::Idle, incoming: None, mask: 0 };
        proof {
            broadcast use vstd::multiset::group_multiset_axioms;
            let p = m.slots.pending@;
            assert(slot_ids(p.take(0)) =~= Multiset::<u64>::empty());
            assert forall|k: int| 0 <= k <= 8 implies slot_ids(#[trigger] p.take(k))
                =~= Multiset::<u64>::empty() by {
                lemma_slot_ids_none(p, k);
            }
            assert(p.take(8) =~= p);
            assert(held_ids(m) =~= Multiset::<u64>::empty());
        }
        m
    }

    fn fill(&mut self) -> (r: (Option<(u64, DaliSendResult)>, SendOp))
        requires
            machine_ok(*old(self)),
        ensures
            machine_ok(*final(self)),
            spec_fill(
                old(self).slots.pending@,
                old(self).slots.oldest_slot.0,
                old(self).slots.next_slot.0,
                old(self).incoming,
                old(self).mask,
                *final(self),
                r.0,
                r.1,
            ),
    {
        let used = self.slots.next_slot.diff(self.slots.oldest_slot);
        let free = used < 8 && (self.slots.next_slot.mask() & self.mask) != 0;
        if free && self.incoming.is_some() {
            let req = self.incoming.unwrap();
            self.incoming = None;
            match req.cmd.data {
                DaliFrame::Frame16(f) => {
                    self.phase = SendPhase::Write { req };
                    let register = DALI_CMD_1 + self.slots.next_slot.slot() as u16;
                    let value = (f[0] as u16) * 256 + (f[1] as u16);
                    (None, SendOp::Write { register, value })
                },
                _ => {
                    self.slots.next_slot.add(1);
                    self.phase = SendPhase::Receive;
                    let r = DaliSendResult::DriverError("Only 16 bit frames supported".to_owned());
                    (Some((req.id, r)), SendOp::TryRecv)
                },
            }
        } else if used == 0 {
            self.phase = SendPhase::Idle;
            let dropped = match self.incoming {
                Some(req) => Some(req.id),
                None => None,
            };
            (None, SendOp::Done { dropped })
        } else {
            self.phase = SendPhase::Sleep;
            (None, SendOp::Sleep)
        }
    }

    fn after_drain(&mut self) -> (r: (Option<(u64, DaliSendResult)>, SendOp))
        requires
            machine_ok(*old(self)),
            !(old(self).phase is Write),
        ensures
            machine_ok(*final(self)),
            spec_after_drain(
                old(self).slots.pending@,
                old(self).slots.oldest_slot.0,
                old(self).slots.next_slot.0,
                old(self).incoming,
                old(self).mask,
                *final(self),
                r.0,
                r.1,
            ),
    {
        let mask = self.mask;
        match self.slots.drain(mask) {
            Some(req) => {
                self.phase = SendPhase::ReadStatus { req };
                let slot = (self.slots.oldest_slot.0 as u32 + 7) % 8;
                (None, SendOp::ReadStatus { register: CMD_STATUS_1 + slot as u16 })
            },
            None => self.fill(),
        }
    }

    /// One step: see `spec_send_step`.
    pub fn step(&mut self, event: SendEvent) -> (r: (Option<(u64, DaliSendResult)>, SendOp))
        requires
            machine_ok(*old(self)),
            event_fits(old(self).phase, event),
        ensures
            machine_ok(*final(self)),
            spec_send_step(*old(self), event, *final(self), r.0, r.1),
            send_inv(*old(self)) ==> send_inv(*final(self)) && held_ids(*final(self)).add(
                settled_ids(r.0, r.1),
            ) == held_ids(*old(self)).add(taken_ids(event)),
    {
        let ghost before = *self;
        let ghost ev = event;
        let r = self.step_inner(event);
        proof {
            if send_inv(before) {
                lemma_send_step_settles(before, ev, *self, r.0, r.1);
            }
        }
        r
    }

    fn step_inner(&mut self, event: SendEvent) -> (r: (Option<(u64, DaliSendResult)>, SendOp))
        requires
            machine_ok(*old(self)),
            event_fits(old(self).phase, event),
        ensures
            machine_ok(*final(self)),
            spec_send_step(*old(self), event, *final(self), r.0, r.1),
    {
        match event {
            SendEvent::Request(req) => {
                self.incoming = Some(req);
                self.phase = SendPhase::ReadMask;
                (None, SendOp::ReadMask)
            },
            SendEvent::Mask(None) => {
                self.phase = SendPhase::ReadMask;
                (None, SendOp::ReadMask)
            },
            SendEvent::Mask(Some(mask)) => {
                self.mask = mask;
                self.after_drain()
            },
            SendEvent::Status(res) => {
                let req = match self.phase {
                    SendPhase::ReadStatus { req } => req,
                    _ => {
                        return (None, SendOp::ReadMask);
                    },
                };
                match res {
                    Err(msg) => {
                        self.phase = SendPhase::ReadMask;
                        (Some((req.id, DaliSendResult::DriverError(msg))), SendOp::ReadMask)
                    },
                    Ok(v) => {
                        self.phase = SendPhase::Drain;
                        let r = status_result(v, req.cmd.flags.expect_answer());
                        (Some((req.id, r)), SendOp::Continue)
                    },
                }
            },
            SendEvent::Written(res) => {
                let req = match self.phase {
                    SendPhase::Write { req } => req,
                    _ => {
                        return (None, SendOp::ReadMask);
                    },
                };
                match res {
                    Err(msg) => {
                        self.phase = SendPhase::ReadMask;
                        (Some((req.id, DaliSendResult::DriverError(msg))), SendOp::ReadMask)
                    },
                    Ok(()) => {
                        let slot = self.slots.next_slot.slot();
                        self.slots.pending.set(slot, Some(req));
                        self.slots.next_slot.add(1);
                        self.phase = SendPhase::Receive;
                        (None, SendOp::TryRecv)
                    },
                }
            },
            SendEvent::Received(r) => {
                self.incoming = r;
                self.fill()
            },
            SendEvent::Continued => self.after_drain(),
            SendEvent::Slept => {
                self.phase = SendPhase::ReadMask;
                (None, SendOp::ReadMask)
            },
        }
    }
}

/// The bus monitor's reading of the gateway's ring buffer of 32 events:
/// the count of events read so far (wrapping) and the time of the last one,
/// in microseconds.
pub struct MonitorState {
    pub last_index: u16,
    pub last_ts: u64,
}

/// A read of `count` events from ring position `position`.
#[derive(Debug, Clone, Copy, PartialEq, Eq, Structural)]
pub struct MonitorRead {
    pub position: u16,
    pub count: u16,
}

/// The read that follows a buffer index register of `index_reg`, from a
/// monitor that has read `last` events: the new events, at most 31 (older
/// ones are skipped), up to the end of the ring; and the read count it
/// starts from.
pub open spec fn spec_monitor_plan(last: u16, index_reg: u16) -> (u16, Option<MonitorRead>) {
    let index = ((index_reg + 1) % 0x10000) as u16;
    let len = ((index - last) % 0x10000) as u16;
    if len == 0 {
        (last, None)
    } else {
        let (len2, last2) = if len > 31 {
            (31u16, ((index - 31) % 0x10000) as u16)
        } else {
            (len, last)
        };
        let position = (last2 % 32) as u16;
        let count = if len2 > 32 - position {
            (32 - position) as u16
        } else {
            len2
        };
        (last2, Some(MonitorRead { position, count }))
    }
}

/// The event of a monitor entry: a framing error, a 16-bit frame (first
/// byte high), or an 8-bit frame (the low byte).
pub open spec fn spec_monitor_event(data: u16, info: u16) -> DaliBusEventType {
    if info & 0x06 != 0 {
        DaliBusEventType::FramingError
    } else if info & 0x08 != 0 {
        DaliBusEventType::Frame16([(data / 256) as u8, (data % 256) as u8])
    } else {
        DaliBusEventType::Frame8((data % 256) as u8)
    }
}

/// The time of a monitor entry: `info` holds the milliseconds since the
/// previous one above bit 6; 999 or more means too long to count, and the
/// time is taken as `now`.
pub open spec fn spec_monitor_time(last_ts: u64, info: u16, now: u64) -> u64 {
    let rel = info / 64;
    if rel >= 999 {
        now
    } else {
        (last_ts + rel * 1000) as u64
    }
}

impl MonitorState {
    pub fn new(now: u64) -> (m: MonitorState)
        ensures
            m.last_index == 0,
            m.last_ts == now,
    {
        MonitorState { last_index: 0, last_ts: now }
    }

    /// The read to make after reading the buffer index register.
    pub fn plan(&mut self, index_reg: u16) -> (r: Option<MonitorRead>)
        ensures
            (final(self).last_index, r) == spec_monitor_plan(old(self).last_index, index_reg),
            final(self).last_ts == old(self).last_ts,
    {
        let index = index_reg.wrapping_add(1);
        let mut len = index.wrapping_sub(self.last_index);
        if len == 0 {
            return None;
        }
        if len > 31 {
            len = 31;
            self.last_index = index.wrapping_sub(31);
        }
        let position = self.last_index % 32;
        if len > 32 - position {
            len = 32 - position;
        }
        Some(MonitorRead { position, count: len })
    }

    /// The bus event of entry (`data`, `info`), read at `now`.
    pub fn entry(&mut self, data: u16, info: u16, now: u64) -> (r: (u64, DaliBusEventType))
        requires
            old(self).last_ts <= u64::MAX - 1_000_000,
        ensures
            final(self).last_ts == spec_monitor_time(old(self).last_ts, info, now),
            final(self).last_index == old(self).last_index,
            r == (final(self).last_ts, spec_monitor_event(data, info)),
    {
        let rel = info / 64;
        if rel >= 999 {
            self.last_ts = now;
        } else {
            self.last_ts = self.last_ts + (rel as u64) * 1000;
        }
        let event_type = if info & 0x06 != 0 {
            DaliBusEventType::FramingError
        } else if info & 0x08 != 0 {
            DaliBusEventType::Frame16([(data / 256) as u8, (data % 256) as u8])
        } else {
            DaliBusEventType::Frame8((data % 256) as u8)
        };
        (self.last_ts, event_type)
    }

    /// `count` events were read.
    pub fn advance(&mut self, count: u16)
        ensures
            final(self).last_index == (old(self).last_index + count) % 0x10000,
            final(self).last_ts == old(self).last_ts,
    {
        self.last_index = self.last_index.wrapping_add(count);
    }
}

/// The registers of a monitor read: two per event.
pub fn monitor_registers(read: MonitorRead) -> (r: (u16, u16))
    requires
        read.position < 32,
        read.count <= 32,
    ensures
        r == ((MONITOR_BUFFER_START + 2 * read.position) as u16, (2 * read.count) as u16),
{
    (MONITOR_BUFFER_START + 2 * read.position, 2 * read.count)
}

/// The adapter sends 16-bit frames only; any other frame is refused with
/// an error.
pub fn accept_frame(cmd: &DaliFrame) -> (r: Result<(), DaliSendResult>)
    ensures
        match *cmd {
            DaliFrame::Frame16(_) => r is Ok,
            _ => r matches Err(e) && is_driver_error(e, "Only 16-bit frames supported when sending"@),
        },
{
    match cmd {
        DaliFrame::Frame16(_) => Ok(()),
        _ => Err(DaliSendResult::DriverError("Only 16-bit frames supported when sending".to_owned())),
    }
}

} // verus!
