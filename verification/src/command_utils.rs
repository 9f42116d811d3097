//! The 16-bit requests behind the common commands: each helper gives the
//! frame and the options that a driver is asked to send, for a command, a
//! query, direct arc power, or a value for a data transfer register.
use vstd::prelude::*;
use crate::address::AddressByte;
use crate::cmd_defs::{Command, DAPC, DTR0, DTR1, DTR2};
use crate::driver::DaliFrame;
use crate::send_flags::{spec_or, Flags};

verus! {

/// Send a command: sent twice when the command must be.
pub fn cmd<const T: bool>(command: Command<false, T>, flags: Flags) -> (r: (DaliFrame, Flags))
    ensures
        r.0 == DaliFrame::Frame16(command.0),
        r.1 == spec_or(
            flags,
            if T {
                Flags::SendTwice(true)
            } else {
                Flags::Combined(0)
            },
        ),
{
    let extra = if T {
        Flags::SendTwice(true)
    } else {
        Flags::Combined(0)
    };
    (DaliFrame::Frame16(command.0), flags | extra)
}

/// Make a query: an answer is expected.
pub fn query(command: Command<true, false>, flags: Flags) -> (r: (DaliFrame, Flags))
    ensures
        r.0 == DaliFrame::Frame16(command.0),
        r.1 == spec_or(flags, Flags::ExpectAnswer(true)),
{
    (DaliFrame::Frame16(command.0), flags | Flags::ExpectAnswer(true))
}

/// Direct arc power control: the level `level` for `addr`.
pub fn device_level(addr: AddressByte, level: u8, flags: Flags) -> (r: (DaliFrame, Flags))
    ensures
        r.0 == DaliFrame::Frame16([addr.0 & 0xfe, level]),
        r.1 == flags,
{
    let c = DAPC(addr, level);
    assert(c.0 =~= [addr.0 & 0xfe, level]);
    (DaliFrame::Frame16(c.0), flags)
}

/// Store `dtr` in DTR0.
pub fn set_dtr0(dtr: u8, flags: Flags) -> (r: (DaliFrame, Flags))
    ensures
        r.0 == DaliFrame::Frame16([0xa3, dtr]),
        r.1 == flags,
{
    let c = DTR0(dtr);
    assert(c.0 =~= [0xa3, dtr]);
    (DaliFrame::Frame16(c.0), flags)
}

/// Store `dtr` in DTR1.
pub fn set_dtr1(dtr: u8, flags: Flags) -> (r: (DaliFrame, Flags))
    ensures
        r.0 == DaliFrame::Frame16([0xc3, dtr]),
        r.1 == flags,
{
    let c = DTR1(dtr);
    assert(c.0 =~= [0xc3, dtr]);
    (DaliFrame::Frame16(c.0), flags)
}

/// Store `dtr` in DTR2.
pub fn set_dtr2(dtr: u8, flags: Flags) -> (r: (DaliFrame, Flags))
    ensures
        r.0 == DaliFrame::Frame16([0xc5, dtr]),
        r.1 == flags,
{
    let c = DTR2(dtr);
    assert(c.0 =~= [0xc5, dtr]);
    (DaliFrame::Frame16(c.0), flags)
}

} // verus!
