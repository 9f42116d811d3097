//! Options for sending a frame: priority, sending twice, expecting an answer.
use vstd::prelude::*;

verus! {

pub const PRIORITY_MASK: u16 = 0x07;
pub const SEND_TWICE_BIT: u16 = 0x08;
pub const EXPECT_ANSWER_BIT: u16 = 0x10;

/// Transaction options. Each variant but `Combined` sets one option;
/// `Combined` holds all of them as a bit field.
#[derive(Debug, Clone, Copy)]
pub enum Flags {
    Empty,
    Priority(u16),
    SendTwice(bool),
    ExpectAnswer(bool),
    Combined(u16),
}


/// The bit field that a flag value stands for.
pub open spec fn spec_bits(f: Flags) -> u16 {
    match f {
        Flags::Empty => 0,
        Flags::Priority(p) => p & PRIORITY_MASK,
        Flags::SendTwice(s) => if s { SEND_TWICE_BIT } else { 0 },
        Flags::ExpectAnswer(e) => if e { EXPECT_ANSWER_BIT } else { 0 },
        Flags::Combined(b) => b,
    }
}

/// The bits of `b` that a flag of the kind of `other` leaves in place when
/// it is or-ed in.
pub open spec fn spec_kept_bits(b: u16, other: Flags) -> u16 {
    match other {
        Flags::Priority(_) => b & !PRIORITY_MASK,
        Flags::SendTwice(_) => b & !SEND_TWICE_BIT,
        Flags::ExpectAnswer(_) => b & !EXPECT_ANSWER_BIT,
        _ => b,
    }
}

/// `a | b`: the options of `a`, overridden by the one that `b` sets.
pub open spec fn spec_or(a: Flags, b: Flags) -> Flags {
    Flags::Combined(spec_kept_bits(spec_bits(a), b) | spec_bits(b))
}

/// The priority, 1..=5, that a bit field asks for; 5 where it asks for none.
pub open spec fn spec_priority_of_bits(b: u16) -> u16 {
    let p = b & PRIORITY_MASK;
    if 1 <= p && p <= 5 { p } else { 5 }
}

impl Flags {
    pub fn bits(&self) -> (b: u16)
        ensures
            b == spec_bits(*self),
    {
        match *self {
            Flags::Empty => 0,
            Flags::Priority(p) => p & PRIORITY_MASK,
            Flags::SendTwice(s) => if s { SEND_TWICE_BIT } else { 0 },
            Flags::ExpectAnswer(e) => if e { EXPECT_ANSWER_BIT } else { 0 },
            Flags::Combined(b) => b,
        }
    }

    pub fn send_twice(&self) -> (r: bool)
        ensures
            r == (spec_bits(*self) & SEND_TWICE_BIT != 0),
    {
        (self.bits() & SEND_TWICE_BIT) != 0
    }

    pub fn expect_answer(&self) -> (r: bool)
        ensures
            r == (spec_bits(*self) & EXPECT_ANSWER_BIT != 0),
    {
        (self.bits() & EXPECT_ANSWER_BIT) != 0
    }

    pub fn priority(&self) -> (r: u16)
        ensures
            r == spec_priority_of_bits(spec_bits(*self)),
            1 <= r <= 5,
    {
        let p = self.bits() & PRIORITY_MASK;
        if 1 <= p && p <= 5 {
            p
        } else {
            5
        }
    }
}

fn or_flags(a: Flags, b: Flags) -> (r: Flags)
    ensures
        r == spec_or(a, b),
{
    let bits = a.bits();
    let kept = match b {
        Flags::Priority(_) => bits & !PRIORITY_MASK,
        Flags::SendTwice(_) => bits & !SEND_TWICE_BIT,
        Flags::ExpectAnswer(_) => bits & !EXPECT_ANSWER_BIT,
        _ => bits,
    };
    Flags::Combined(kept | b.bits())
}

impl core::ops::BitOr<Flags> for Flags {
    type Output = Flags;

    fn bitor(self, other: Flags) -> (r: Flags) {
        or_flags(self, other)
    }
}

impl vstd::std_specs::ops::BitOrSpecImpl<Flags> for Flags {
    open spec fn obeys_bitor_spec() -> bool {
        true
    }

    open spec fn bitor_req(self, rhs: Flags) -> bool {
        true
    }

    open spec fn bitor_spec(self, rhs: Flags) -> Flags {
        spec_or(self, rhs)
    }
}

impl core::ops::BitOrAssign<Flags> for Flags {
    fn bitor_assign(&mut self, other: Flags)
        ensures
            *final(self) == spec_or(*old(self), other),
    {
        *self = or_flags(*self, other);
    }
}

/// Or-ing in a send-twice flag sets the send-twice option to its value and
/// leaves the answer option and the priority of the left operand as they were.
pub proof fn lemma_or_send_twice(a: Flags, s: bool)
    ensures
        (spec_bits(spec_or(a, Flags::SendTwice(s))) & SEND_TWICE_BIT != 0) == s,
        (spec_bits(spec_or(a, Flags::SendTwice(s))) & EXPECT_ANSWER_BIT) == (spec_bits(a)
            & EXPECT_ANSWER_BIT),
        spec_priority_of_bits(spec_bits(spec_or(a, Flags::SendTwice(s)))) == spec_priority_of_bits(
            spec_bits(a),
        ),
{
    let b = spec_bits(a);
    if s {
        assert(
            (((b & !0x08u16) | 0x08u16) & 0x08u16 != 0) &&
            ((((b & !0x08u16) | 0x08u16) & 0x10u16) == (b & 0x10u16)) &&
            ((((b & !0x08u16) | 0x08u16) & 0x07u16) == (b & 0x07u16))
        ) by (bit_vector);
    } else {
        assert(
            (((b & !0x08u16) | 0u16) & 0x08u16 == 0) &&
            ((((b & !0x08u16) | 0u16) & 0x10u16) == (b & 0x10u16)) &&
            ((((b & !0x08u16) | 0u16) & 0x07u16) == (b & 0x07u16))
        ) by (bit_vector);
    }
}

/// Or-ing in an expect-answer flag sets the answer option to its value and
/// leaves the send-twice option and the priority as they were.
pub proof fn lemma_or_expect_answer(a: Flags, e: bool)
    ensures
        (spec_bits(spec_or(a, Flags::ExpectAnswer(e))) & EXPECT_ANSWER_BIT != 0) == e,
        (spec_bits(spec_or(a, Flags::ExpectAnswer(e))) & SEND_TWICE_BIT) == (spec_bits(a)
            & SEND_TWICE_BIT),
        spec_priority_of_bits(spec_bits(spec_or(a, Flags::ExpectAnswer(e))))
            == spec_priority_of_bits(spec_bits(a)),
{
    let b = spec_bits(a);
    if e {
        assert(
            (((b & !0x10u16) | 0x10u16) & 0x10u16 != 0) &&
            ((((b & !0x10u16) | 0x10u16) & 0x08u16) == (b & 0x08u16)) &&
            ((((b & !0x10u16) | 0x10u16) & 0x07u16) == (b & 0x07u16))
        ) by (bit_vector);
    } else {
        assert(
            (((b & !0x10u16) | 0u16) & 0x10u16 == 0) &&
            ((((b & !0x10u16) | 0u16) & 0x08u16) == (b & 0x08u16)) &&
            ((((b & !0x10u16) | 0u16) & 0x07u16) == (b & 0x07u16))
        ) by (bit_vector);
    }
}

/// Or-ing in a priority of 1..=5 sets the priority to it and leaves the
/// send-twice and answer options as they were; any other priority value
/// gives the default priority 5.
pub proof fn lemma_or_priority(a: Flags, p: u16)
    ensures
        1 <= p <= 5 ==> spec_priority_of_bits(spec_bits(spec_or(a, Flags::Priority(p)))) == p,
        !(1 <= (p & PRIORITY_MASK) <= 5) ==> spec_priority_of_bits(
            spec_bits(spec_or(a, Flags::Priority(p))),
        ) == 5,
        (spec_bits(spec_or(a, Flags::Priority(p))) & SEND_TWICE_BIT) == (spec_bits(a)
            & SEND_TWICE_BIT),
        (spec_bits(spec_or(a, Flags::Priority(p))) & EXPECT_ANSWER_BIT) == (spec_bits(a)
            & EXPECT_ANSWER_BIT),
{
    let b = spec_bits(a);
    assert(
        ((((b & !0x07u16) | (p & 0x07u16)) & 0x07u16) == (p & 0x07u16)) &&
        (1 <= p <= 5 ==> (p & 0x07u16) == p) &&
        ((((b & !0x07u16) | (p & 0x07u16)) & 0x08u16) == (b & 0x08u16)) &&
        ((((b & !0x07u16) | (p & 0x07u16)) & 0x10u16) == (b & 0x10u16))
    ) by (bit_vector);
}

} // verus!
