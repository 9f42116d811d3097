//! The dummy driver, which emulates an empty bus: nothing answers.
use vstd::prelude::*;
use crate::driver::{DaliFrame, DaliSendResult};
use crate::text::{concat, hex2, hex_short, text_and_hex, text_and_short_hex};
use crate::send_flags::{Flags, spec_bits, SEND_TWICE_BIT, EXPECT_ANSWER_BIT};

verus! {

/// The dummy driver; it may log what it is asked to send.
#[derive(Debug, Clone, Copy, PartialEq, Eq, Structural)]
pub struct DummyDriver {
    pub logging: bool,
}

/// The log prefix for options `flags`.
pub open spec fn spec_log_prefix(flags: Flags) -> Seq<char> {
    if spec_bits(flags) & SEND_TWICE_BIT != 0 {
        "T "@
    } else if spec_bits(flags) & EXPECT_ANSWER_BIT != 0 {
        "A "@
    } else {
        "  "@
    }
}

/// The frame's bytes in hexadecimal, separated by spaces; the last byte of
/// a 25-bit frame without leading zero.
pub open spec fn frame_hex(cmd: DaliFrame) -> Seq<char> {
    match cmd {
        DaliFrame::Frame8(f) => hex2(f),
        DaliFrame::Frame16(f) => hex2(f[0]) + " "@ + hex2(f[1]),
        DaliFrame::Frame24(f) => hex2(f[0]) + " "@ + hex2(f[1]) + " "@ + hex2(f[2]),
        DaliFrame::Frame25(f) => hex2(f[0]) + " "@ + hex2(f[1]) + " "@ + hex2(f[2]) + " "@
            + hex_short(f[3]),
    }
}

/// The result of a send with options `flags` on an empty bus, and how long
/// the send takes in milliseconds: a frame sent twice takes 19 ms, one
/// expecting an answer gets none after 11 ms, others take 9 ms.
pub open spec fn spec_dummy_outcome(flags: Flags, r: DaliSendResult, ms: u64) -> bool {
    if spec_bits(flags) & SEND_TWICE_BIT != 0 {
        r is Sent && ms == 19
    } else if spec_bits(flags) & EXPECT_ANSWER_BIT != 0 {
        r is Timeout && ms == 11
    } else {
        r is Sent && ms == 9
    }
}

impl DummyDriver {
    pub fn new(logging: bool) -> (d: DummyDriver)
        ensures
            d.logging == logging,
    {
        DummyDriver { logging }
    }

    /// The result of a send and its duration.
    pub fn outcome(&self, flags: Flags) -> (r: (DaliSendResult, u64))
        ensures
            spec_dummy_outcome(flags, r.0, r.1),
    {
        if flags.send_twice() {
            (DaliSendResult::Sent, 19)
        } else if flags.expect_answer() {
            (DaliSendResult::Timeout, 11)
        } else {
            (DaliSendResult::Sent, 9)
        }
    }

    /// The start of a log line: "T " for a frame sent twice, "A " for one
    /// expecting an answer, else two spaces.
    pub fn log_prefix(&self, flags: Flags) -> (s: &'static str)
        ensures
            s@ == spec_log_prefix(flags),
    {
        if flags.send_twice() {
            "T "
        } else if flags.expect_answer() {
            "A "
        } else {
            "  "
        }
    }

    /// The log line for a send of `cmd` with options `flags`: the prefix,
    /// the frame in hexadecimal, and a line end.
    pub fn log_line(&self, cmd: &DaliFrame, flags: Flags) -> (s: String)
        ensures
            s@ == spec_log_prefix(flags) + frame_hex(*cmd) + "\n"@,
    {
        let prefix = self.log_prefix(flags);
        let body = match cmd {
            DaliFrame::Frame8(f) => text_and_hex(prefix, *f),
            DaliFrame::Frame16(f) => {
                let a = text_and_hex(prefix, f[0]);
                let b = concat(a.as_str(), " ");
                text_and_hex(b.as_str(), f[1])
            },
            DaliFrame::Frame24(f) => {
                let a = text_and_hex(prefix, f[0]);
                let b = concat(a.as_str(), " ");
                let c = text_and_hex(b.as_str(), f[1]);
                let d = concat(c.as_str(), " ");
                text_and_hex(d.as_str(), f[2])
            },
            DaliFrame::Frame25(f) => {
                let a = text_and_hex(prefix, f[0]);
                let b = concat(a.as_str(), " ");
                let c = text_and_hex(b.as_str(), f[1]);
                let d = concat(c.as_str(), " ");
                let e = text_and_hex(d.as_str(), f[2]);
                let g = concat(e.as_str(), " ");
                text_and_short_hex(g.as_str(), f[3])
            },
        };
        let r = concat(body.as_str(), "\n");
        proof {
            reveal_strlit(" ");
            reveal_strlit("\n");
        }
        assert(r@ =~= spec_log_prefix(flags) + frame_hex(*cmd) + "\n"@);
        r
    }
}

} // verus!
