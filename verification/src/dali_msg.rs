//! The message block exchanged with the PRU firmware that drives the bus:
//! a sequence number, a result code, option flags and up to four frame
//! bytes.
use vstd::prelude::*;

verus! {

pub const DALI_OK: u8 = 0;
pub const DALI_SEND_DONE: u8 = 2;
pub const DALI_RECV_FRAME: u8 = 5;
/// Received a frame with a framing error
pub const DALI_ERR_FRAMING: u8 = 10;
/// The bus has been low for a long time
pub const DALI_ERR_BUS_LOW: u8 = 20;
/// The bus has returned to a high level
pub const DALI_INFO_BUS_HIGH: u8 = 24;
/// Failed to send a frame, including retries, due to bus activity
pub const DALI_ERR_BUS_BUSY: u8 = 30;
/// Timeout when waiting for a backward frame
pub const DALI_NO_REPLY: u8 = 40;
/// Hardware or software error
pub const DALI_ERR_DRIVER: u8 = 50;
/// A timeout wasn't handled quickly enough
pub const DALI_ERR_TIMING: u8 = 55;
/// Another frame was received before the previous one was read
pub const DALI_OVERRUN: u8 = 200;

/// Frame length
pub const DALI_FLAGS_LENGTH: u16 = 0x700;
pub const DALI_FLAGS_LENGTH_25: u16 = 0x500;
pub const DALI_FLAGS_LENGTH_24: u16 = 0x300;
pub const DALI_FLAGS_LENGTH_16: u16 = 0x200;
pub const DALI_FLAGS_LENGTH_8: u16 = 0x0100;
/// Driver command, don't send a frame
pub const DALI_FLAGS_DRIVER: u16 = 0x000;

/// Repeat frame
pub const DALI_FLAGS_SEND_TWICE: u16 = 0x20;
pub const DALI_FLAGS_SEND_ONCE: u16 = 0x00;

/// Retry
pub const DALI_FLAGS_RETRY: u16 = 0x10;

pub const DALI_FLAGS_EXPECT_ANSWER: u16 = 0x08;

/// Ignore collision. Must be used for backward frames.
pub const DALI_FLAGS_NO_COLLISIONS: u16 = 0x40;

pub const DALI_FLAGS_PRIORITY: u16 = 0x07;
/// Backward frame
pub const DALI_FLAGS_PRIORITY_0: u16 = 0x00;
pub const DALI_FLAGS_PRIORITY_1: u16 = 0x01;
pub const DALI_FLAGS_PRIORITY_2: u16 = 0x02;
pub const DALI_FLAGS_PRIORITY_3: u16 = 0x03;
pub const DALI_FLAGS_PRIORITY_4: u16 = 0x04;
pub const DALI_FLAGS_PRIORITY_5: u16 = 0x05;

/// One message to or from the firmware.
#[derive(Debug)]
pub struct DaliMsg {
    seq: u8,
    result: u8,
    flags: u16,
    frame: [u8; 4],
}

/// `flags` with the bits of `flag` cleared, then set again when `set`.
pub open spec fn spec_set_flag(flags: u16, flag: u16, set: bool) -> u16 {
    (flags & !flag) | if set {
        flag
    } else {
        0
    }
}

/// The frame length in bits that the length field of `flags` gives.
pub open spec fn spec_msg_bit_length(flags: u16) -> u16 {
    let l = flags & DALI_FLAGS_LENGTH;
    if l == DALI_FLAGS_LENGTH_25 {
        25
    } else if l == DALI_FLAGS_LENGTH_24 {
        24
    } else if l == DALI_FLAGS_LENGTH_16 {
        16
    } else {
        8
    }
}

/// `flags` with the priority field replaced by the low bits of `priority`.
pub open spec fn spec_set_priority(flags: u16, priority: u16) -> u16 {
    (flags & !DALI_FLAGS_PRIORITY) | (priority & DALI_FLAGS_PRIORITY)
}

fn set_flag(flags: &mut u16, flag: u16, set: bool)
    ensures
        *final(flags) == spec_set_flag(*old(flags), flag, set),
{
    *flags = (*flags & !flag) | if set {
        flag
    } else {
        0
    };
}

/// Setting a flag `m` to `v` makes it read `v`, and leaves every bit
/// outside `m` as it was; so a field `m2` that shares no bit with `m`
/// keeps its value.
pub proof fn lemma_set_flag(f: u16, m: u16, m2: u16, v: bool)
    requires
        m != 0,
        m & m2 == 0,
    ensures
        (spec_set_flag(f, m, v) & m != 0) == v,
        spec_set_flag(f, m, v) & m2 == f & m2,
{
    if v {
        assert(((f & !m) | m) & m != 0 && ((f & !m) | m) & m2 == f & m2) by (bit_vector)
            requires
                m != 0,
                m & m2 == 0,
        ;
    } else {
        assert(((f & !m) | 0) & m == 0 && ((f & !m) | 0) & m2 == f & m2) by (bit_vector)
            requires
                m & m2 == 0,
        ;
    }
}

/// Setting the priority makes it read the low bits of the value given, and
/// leaves every bit outside the priority field as it was.
pub proof fn lemma_set_priority(f: u16, p: u16, m2: u16)
    requires
        m2 & DALI_FLAGS_PRIORITY == 0,
    ensures
        spec_set_priority(f, p) & DALI_FLAGS_PRIORITY == p & DALI_FLAGS_PRIORITY,
        spec_set_priority(f, p) & m2 == f & m2,
{
    assert(((f & !7u16) | (p & 7u16)) & 7u16 == p & 7u16 && ((f & !7u16) | (p & 7u16)) & m2 == f
        & m2) by (bit_vector)
        requires
            m2 & 7u16 == 0,
    ;
}

/// One of the setters of a message's options, with its argument.
pub enum FlagSetter {
    SendTwice(bool),
    ExpectAnswer(bool),
    Retry(bool),
    IgnoreCollisions(bool),
    Priority(u16),
}

/// The flags after one setter.
pub open spec fn spec_apply_setter(flags: u16, s: FlagSetter) -> u16 {
    match s {
        FlagSetter::SendTwice(v) => spec_set_flag(flags, DALI_FLAGS_SEND_TWICE, v),
        FlagSetter::ExpectAnswer(v) => spec_set_flag(flags, DALI_FLAGS_EXPECT_ANSWER, v),
        FlagSetter::Retry(v) => spec_set_flag(flags, DALI_FLAGS_RETRY, v),
        FlagSetter::IgnoreCollisions(v) => spec_set_flag(flags, DALI_FLAGS_NO_COLLISIONS, v),
        FlagSetter::Priority(p) => spec_set_priority(flags, p),
    }
}

/// The flags after the setters `ss`, in order.
pub open spec fn spec_apply_setters(flags: u16, ss: Seq<FlagSetter>) -> u16
    decreases ss.len(),
{
    if ss.len() == 0 {
        flags
    } else {
        spec_apply_setter(spec_apply_setters(flags, ss.drop_last()), ss.last())
    }
}

/// The frame length of a message is 8, 16, 24 or 25 bits.
pub proof fn lemma_bit_length_values(flags: u16)
    ensures
        spec_msg_bit_length(flags) == 8 || spec_msg_bit_length(flags) == 16
            || spec_msg_bit_length(flags) == 24 || spec_msg_bit_length(flags) == 25,
{
}

/// No setter touches the length field of the flags, so after any sequence
/// of setter calls a message keeps its frame length.
pub proof fn lemma_setters_keep_bit_length(flags: u16, ss: Seq<FlagSetter>)
    ensures
        spec_apply_setters(flags, ss) & DALI_FLAGS_LENGTH == flags & DALI_FLAGS_LENGTH,
        spec_msg_bit_length(spec_apply_setters(flags, ss)) == spec_msg_bit_length(flags),
    decreases ss.len(),
{
    if ss.len() > 0 {
        let f = spec_apply_setters(flags, ss.drop_last());
        lemma_setters_keep_bit_length(flags, ss.drop_last());
        assert(0x20u16 & 0x700u16 == 0) by (bit_vector);
        assert(0x08u16 & 0x700u16 == 0) by (bit_vector);
        assert(0x10u16 & 0x700u16 == 0) by (bit_vector);
        assert(0x40u16 & 0x700u16 == 0) by (bit_vector);
        assert(0x700u16 & 0x07u16 == 0) by (bit_vector);
        match ss.last() {
            FlagSetter::SendTwice(v) => lemma_set_flag(f, DALI_FLAGS_SEND_TWICE, DALI_FLAGS_LENGTH, v),
            FlagSetter::ExpectAnswer(v) => lemma_set_flag(
                f,
                DALI_FLAGS_EXPECT_ANSWER,
                DALI_FLAGS_LENGTH,
                v,
            ),
            FlagSetter::Retry(v) => lemma_set_flag(f, DALI_FLAGS_RETRY, DALI_FLAGS_LENGTH, v),
            FlagSetter::IgnoreCollisions(v) => lemma_set_flag(
                f,
                DALI_FLAGS_NO_COLLISIONS,
                DALI_FLAGS_LENGTH,
                v,
            ),
            FlagSetter::Priority(p) => lemma_set_priority(f, p, DALI_FLAGS_LENGTH),
        }
    }
}

impl DaliMsg {
    pub closed spec fn seq_of(&self) -> u8 {
        self.seq
    }

    pub closed spec fn result_of(&self) -> u8 {
        self.result
    }

    pub closed spec fn flags_of(&self) -> u16 {
        self.flags
    }

    pub closed spec fn frame_of(&self) -> [u8; 4] {
        self.frame
    }

    /// A message that sends the 8-bit frame `frame[0]`.
    pub fn frame8(seq: u8, frame: &[u8]) -> (r: DaliMsg)
        requires
            frame.len() >= 1,
        ensures
            r.seq_of() == seq,
            r.result_of() == 0,
            r.flags_of() == DALI_FLAGS_LENGTH_8,
            r.frame_of()@ == seq![frame[0], 0u8, 0u8, 0u8],
    {
        let r = DaliMsg { seq, result: 0, flags: DALI_FLAGS_LENGTH_8, frame: [frame[0], 0, 0, 0] };
        assert(r.frame@ =~= seq![frame[0], 0u8, 0u8, 0u8]);
        r
    }

    /// A message that sends the 16-bit frame `frame[0..2]`.
    pub fn frame16(seq: u8, frame: &[u8]) -> (r: DaliMsg)
        requires
            frame.len() >= 2,
        ensures
            r.seq_of() == seq,
            r.result_of() == 0,
            r.flags_of() == DALI_FLAGS_LENGTH_16,
            r.frame_of()@ == seq![frame[0], frame[1], 0u8, 0u8],
    {
        let r = DaliMsg {
            seq,
            result: 0,
            flags: DALI_FLAGS_LENGTH_16,
            frame: [frame[0], frame[1], 0, 0],
        };
        assert(r.frame@ =~= seq![frame[0], frame[1], 0u8, 0u8]);
        r
    }

    /// A message that sends the 24-bit frame `frame[0..3]`.
    pub fn frame24(seq: u8, frame: &[u8]) -> (r: DaliMsg)
        requires
            frame.len() >= 3,
        ensures
            r.seq_of() == seq,
            r.result_of() == 0,
            r.flags_of() == DALI_FLAGS_LENGTH_24,
            r.frame_of()@ == seq![frame[0], frame[1], frame[2], 0u8],
    {
        let r = DaliMsg {
            seq,
            result: 0,
            flags: DALI_FLAGS_LENGTH_24,
            frame: [frame[0], frame[1], frame[2], 0],
        };
        assert(r.frame@ =~= seq![frame[0], frame[1], frame[2], 0u8]);
        r
    }

    /// A message that sends the 25-bit frame `frame[0..4]`.
    pub fn frame25(seq: u8, frame: &[u8]) -> (r: DaliMsg)
        requires
            frame.len() >= 4,
        ensures
            r.seq_of() == seq,
            r.result_of() == 0,
            r.flags_of() == DALI_FLAGS_LENGTH_25,
            r.frame_of()@ == seq![frame[0], frame[1], frame[2], frame[3]],
    {
        let r = DaliMsg {
            seq,
            result: 0,
            flags: DALI_FLAGS_LENGTH_25,
            frame: [frame[0], frame[1], frame[2], frame[3]],
        };
        assert(r.frame@ =~= seq![frame[0], frame[1], frame[2], frame[3]]);
        r
    }

    pub fn seq(&self) -> (r: u8)
        ensures
            r == self.seq_of(),
    {
        self.seq
    }

    pub fn result(&self) -> (r: u8)
        ensures
            r == self.result_of(),
    {
        self.result
    }

    /// The frame length in bits; 8 when the length field holds no known
    /// length.
    pub fn bit_length(&self) -> (r: u16)
        ensures
            r == spec_msg_bit_length(self.flags_of()),
    {
        let l = self.flags & DALI_FLAGS_LENGTH;
        if l == DALI_FLAGS_LENGTH_25 {
            25
        } else if l == DALI_FLAGS_LENGTH_24 {
            24
        } else if l == DALI_FLAGS_LENGTH_16 {
            16
        } else {
            8
        }
    }

    pub fn frame_data(&self) -> (r: &[u8; 4])
        ensures
            *r == self.frame_of(),
    {
        &self.frame
    }

    pub fn send_twice(&self) -> (r: bool)
        ensures
            r == (self.flags_of() & DALI_FLAGS_SEND_TWICE != 0),
    {
        (self.flags & DALI_FLAGS_SEND_TWICE) != 0
    }

    pub fn set_send_twice(&mut self, twice: bool)
        ensures
            final(self).flags_of() == spec_set_flag(old(self).flags_of(), DALI_FLAGS_SEND_TWICE, twice),
            final(self).seq_of() == old(self).seq_of(),
            final(self).result_of() == old(self).result_of(),
            final(self).frame_of() == old(self).frame_of(),
    {
        set_flag(&mut self.flags, DALI_FLAGS_SEND_TWICE, twice);
    }

    pub fn expect_answer(&self) -> (r: bool)
        ensures
            r == (self.flags_of() & DALI_FLAGS_EXPECT_ANSWER != 0),
    {
        (self.flags & DALI_FLAGS_EXPECT_ANSWER) != 0
    }

    pub fn set_expect_answer(&mut self, answer: bool)
        ensures
            final(self).flags_of() == spec_set_flag(old(self).flags_of(), DALI_FLAGS_EXPECT_ANSWER, answer),
            final(self).seq_of() == old(self).seq_of(),
            final(self).result_of() == old(self).result_of(),
            final(self).frame_of() == old(self).frame_of(),
    {
        set_flag(&mut self.flags, DALI_FLAGS_EXPECT_ANSWER, answer);
    }

    pub fn retry(&self) -> (r: bool)
        ensures
            r == (self.flags_of() & DALI_FLAGS_RETRY != 0),
    {
        (self.flags & DALI_FLAGS_RETRY) != 0
    }

    pub fn set_retry(&mut self, retry: bool)
        ensures
            final(self).flags_of() == spec_set_flag(old(self).flags_of(), DALI_FLAGS_RETRY, retry),
            final(self).seq_of() == old(self).seq_of(),
            final(self).result_of() == old(self).result_of(),
            final(self).frame_of() == old(self).frame_of(),
    {
        set_flag(&mut self.flags, DALI_FLAGS_RETRY, retry);
    }

    pub fn ignore_collisions(&self) -> (r: bool)
        ensures
            r == (self.flags_of() & DALI_FLAGS_NO_COLLISIONS != 0),
    {
        (self.flags & DALI_FLAGS_NO_COLLISIONS) != 0
    }

    pub fn set_ignore_collisions(&mut self, ignore: bool)
        ensures
            final(self).flags_of() == spec_set_flag(old(self).flags_of(), DALI_FLAGS_NO_COLLISIONS, ignore),
            final(self).seq_of() == old(self).seq_of(),
            final(self).result_of() == old(self).result_of(),
            final(self).frame_of() == old(self).frame_of(),
    {
        set_flag(&mut self.flags, DALI_FLAGS_NO_COLLISIONS, ignore);
    }

    pub fn priority(&self) -> (r: u16)
        ensures
            r == self.flags_of() & DALI_FLAGS_PRIORITY,
    {
        self.flags & DALI_FLAGS_PRIORITY
    }

    pub fn set_priority(&mut self, priority: u16)
        ensures
            final(self).flags_of() == spec_set_priority(old(self).flags_of(), priority),
            final(self).seq_of() == old(self).seq_of(),
            final(self).result_of() == old(self).result_of(),
            final(self).frame_of() == old(self).frame_of(),
    {
        self.flags = (self.flags & !DALI_FLAGS_PRIORITY) | (priority & DALI_FLAGS_PRIORITY);
    }

    /// The message as the 8-byte block that the firmware reads: sequence
    /// number, result, the flags low byte first, and the frame.
    pub fn to_block(&self) -> (b: [u8; 8])
        ensures
            b@ == seq![
                self.seq_of(),
                self.result_of(),
                (self.flags_of() % 256) as u8,
                (self.flags_of() / 256) as u8,
                self.frame_of()[0],
                self.frame_of()[1],
                self.frame_of()[2],
                self.frame_of()[3],
            ],
    {
        let b = [
            self.seq,
            self.result,
            (self.flags % 256) as u8,
            (self.flags / 256) as u8,
            self.frame[0],
            self.frame[1],
            self.frame[2],
            self.frame[3],
        ];
        assert(b@ =~= seq![
            self.seq,
            self.result,
            (self.flags % 256) as u8,
            (self.flags / 256) as u8,
            self.frame[0],
            self.frame[1],
            self.frame[2],
            self.frame[3],
        ]);
        b
    }

    /// The message of an 8-byte block from the firmware.
    pub fn from_block(b: [u8; 8]) -> (m: DaliMsg)
        ensures
            m.seq_of() == b[0],
            m.result_of() == b[1],
            m.flags_of() == b[2] as int + 256 * b[3] as int,
            m.frame_of()@ == seq![b[4], b[5], b[6], b[7]],
    {
        let m = DaliMsg {
            seq: b[0],
            result: b[1],
            flags: (b[2] as u16) + 256 * (b[3] as u16),
            frame: [b[4], b[5], b[6], b[7]],
        };
        assert(m.frame@ =~= seq![b[4], b[5], b[6], b[7]]);
        m
    }
}

/// A message written as a block and read back is the same message.
pub proof fn lemma_block_round_trip(m: DaliMsg, b: Seq<u8>, n: DaliMsg)
    requires
        b == seq![
            m.seq_of(),
            m.result_of(),
            (m.flags_of() % 256) as u8,
            (m.flags_of() / 256) as u8,
            m.frame_of()[0],
            m.frame_of()[1],
            m.frame_of()[2],
            m.frame_of()[3],
        ],
        n.seq_of() == b[0],
        n.result_of() == b[1],
        n.flags_of() == b[2] as int + 256 * b[3] as int,
        n.frame_of()@ == seq![b[4], b[5], b[6], b[7]],
    ensures
        n.seq_of() == m.seq_of(),
        n.result_of() == m.result_of(),
        n.flags_of() == m.flags_of(),
        n.frame_of()@ == m.frame_of()@,
{
    assert(n.frame_of()@ =~= m.frame_of()@);
}

} // verus!
