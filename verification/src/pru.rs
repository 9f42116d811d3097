//! The logic of the driver that talks to the PRU firmware through 8-byte
//! message blocks: building the block for a request, telling what a reply
//! means, and turning unsolicited blocks into bus events.
use vstd::prelude::*;
use crate::dali_msg::{
    DaliMsg,
    DALI_ERR_BUS_BUSY,
    DALI_ERR_BUS_LOW,
    DALI_ERR_DRIVER,
    DALI_ERR_FRAMING,
    DALI_ERR_TIMING,
    DALI_FLAGS_EXPECT_ANSWER,
    DALI_FLAGS_LENGTH_8,
    DALI_FLAGS_LENGTH_16,
    DALI_FLAGS_LENGTH_24,
    DALI_FLAGS_LENGTH_25,
    DALI_FLAGS_NO_COLLISIONS,
    DALI_FLAGS_PRIORITY,
    DALI_FLAGS_RETRY,
    DALI_FLAGS_SEND_TWICE,
    DALI_INFO_BUS_HIGH,
    DALI_NO_REPLY,
    DALI_RECV_FRAME,
    DALI_SEND_DONE,
    spec_msg_bit_length,
    spec_set_flag,
    spec_set_priority,
};
use crate::dgw521::{DALIcmd, is_driver_error};
use crate::driver::{DaliBusEventType, DaliFrame, DaliSendResult};
use crate::send_flags::{spec_bits, spec_priority_of_bits, SEND_TWICE_BIT, EXPECT_ANSWER_BIT};
use crate::text::{concat, decimal, text_and_number};

verus! {

/// The text "Device result: " and the decimal number `n`.
fn device_result_text(n: u8) -> (s: String)
    ensures
        s@ == "Device result: "@ + decimal(n as nat),
{
    text_and_number("Device result: ", n)
}

/// The text about a reply with sequence number `n` that was not expected.
fn unexpected_seq_text(n: u8) -> (s: String)
    ensures
        s@ == "Unexpected sequence number in reply: Got "@ + decimal(n as nat) + ", expected"@,
{
    let head = text_and_number("Unexpected sequence number in reply: Got ", n);
    concat(head.as_str(), ", expected")
}

/// The text about a block whose sequence number `got` is not the
/// `expected` one.
fn sequence_error_text(expected: u8, got: u8) -> (s: String)
    ensures
        s@ == "Expected "@ + decimal(expected as nat) + " as sequence number, got "@ + decimal(
            got as nat,
        ),
{
    let head = text_and_number("Expected ", expected);
    let middle = concat(head.as_str(), " as sequence number, got ");
    text_and_number(middle.as_str(), got)
}

/// `r` is the send result that a reply with result code `result`, frame
/// length `bits` and first frame byte `data` stands for.
pub open spec fn reply_result_is(result: u8, bits: u16, data: u8, r: DaliSendResult) -> bool {
    if result == DALI_SEND_DONE {
        r is Sent
    } else if result == DALI_RECV_FRAME {
        if bits == 8 {
            r == DaliSendResult::Answer(data)
        } else {
            is_driver_error(r, "Answer must be 8 bits"@)
        }
    } else if result == DALI_ERR_FRAMING {
        r is Framing
    } else if result == DALI_NO_REPLY {
        r is Timeout
    } else if result == DALI_ERR_BUS_BUSY {
        is_driver_error(r, "Bus busy, frame not sent"@)
    } else if result == DALI_ERR_DRIVER {
        is_driver_error(r, "Device error"@)
    } else if result == DALI_ERR_TIMING {
        is_driver_error(r, "Internal timing error"@)
    } else {
        is_driver_error(r, "Device result: "@ + decimal(result as nat))
    }
}

/// The send result of a reply block.
pub fn reply_to_send_result(reply: &DaliMsg) -> (r: DaliSendResult)
    ensures
        reply_result_is(
            reply.result_of(),
            spec_msg_bit_length(reply.flags_of()),
            reply.frame_of()[0],
            r,
        ),
{
    let result = reply.result();
    if result == DALI_SEND_DONE {
        DaliSendResult::Sent
    } else if result == DALI_RECV_FRAME {
        if reply.bit_length() == 8 {
            DaliSendResult::Answer(reply.frame_data()[0])
        } else {
            DaliSendResult::DriverError("Answer must be 8 bits".to_owned())
        }
    } else if result == DALI_ERR_FRAMING {
        DaliSendResult::Framing
    } else if result == DALI_NO_REPLY {
        DaliSendResult::Timeout
    } else if result == DALI_ERR_BUS_BUSY {
        DaliSendResult::DriverError("Bus busy, frame not sent".to_owned())
    } else if result == DALI_ERR_DRIVER {
        DaliSendResult::DriverError("Device error".to_owned())
    } else if result == DALI_ERR_TIMING {
        DaliSendResult::DriverError("Internal timing error".to_owned())
    } else {
        DaliSendResult::DriverError(device_result_text(result))
    }
}

/// What a reply to the request with sequence number `send_seq` does: `None`
/// while it is only the report that a frame expecting an answer was sent
/// (the answer is still to come); else the request's result. A reply with
/// another sequence number is an error.
pub open spec fn reply_outcome_is(
    send_seq: u8,
    expect_answer: bool,
    reply: DaliMsg,
    r: Option<DaliSendResult>,
) -> bool {
    if reply.seq_of() == send_seq {
        if expect_answer && reply.result_of() == DALI_SEND_DONE {
            r is None
        } else {
            r matches Some(x) && reply_result_is(
                reply.result_of(),
                spec_msg_bit_length(reply.flags_of()),
                reply.frame_of()[0],
                x,
            )
        }
    } else {
        r matches Some(x) && is_driver_error(
            x,
            "Unexpected sequence number in reply: Got "@ + decimal(reply.seq_of() as nat)
                + ", expected"@,
        )
    }
}

pub fn reply_outcome(send_seq: u8, expect_answer: bool, reply: &DaliMsg) -> (r: Option<
    DaliSendResult,
>)
    ensures
        reply_outcome_is(send_seq, expect_answer, *reply, r),
{
    if reply.seq() == send_seq {
        if expect_answer && reply.result() == DALI_SEND_DONE {
            None
        } else {
            Some(reply_to_send_result(reply))
        }
    } else {
        Some(DaliSendResult::DriverError(unexpected_seq_text(reply.seq())))
    }
}

/// The sequence number after `seq`: 1 to 255 in turn.
pub open spec fn spec_next_pru_seq(seq: u8) -> u8 {
    if seq == 255 {
        1
    } else {
        (seq + 1) as u8
    }
}

/// The sequence number of the request after one sent with `seq`.
pub fn next_pru_seq(seq: u8) -> (r: u8)
    ensures
        r == spec_next_pru_seq(seq),
{
    if seq == 255 {
        1
    } else {
        seq + 1
    }
}

/// The flags of the block for `cmd`: the frame length; for an 8-bit
/// (backward) frame, collisions ignored and priority 0; for other frames
/// the priority bits of a new block (none), replaced by the request's
/// priority when that is outside 1 to 5; send twice and expect answer from
/// the request; retry on.
pub open spec fn spec_block_flags(cmd: DALIcmd) -> u16 {
    let b = spec_bits(cmd.flags);
    let len_flags = match cmd.data {
        DaliFrame::Frame8(_) => spec_set_priority(
            spec_set_flag(DALI_FLAGS_LENGTH_8, DALI_FLAGS_NO_COLLISIONS, true),
            0,
        ),
        DaliFrame::Frame16(_) => DALI_FLAGS_LENGTH_16,
        DaliFrame::Frame24(_) => DALI_FLAGS_LENGTH_24,
        DaliFrame::Frame25(_) => DALI_FLAGS_LENGTH_25,
    };
    let prio = spec_priority_of_bits(b);
    let f1 = match cmd.data {
        DaliFrame::Frame8(_) => spec_set_priority(len_flags, 0),
        _ => if !(1 <= prio && prio <= 5) {
            spec_set_priority(len_flags, prio)
        } else {
            len_flags
        },
    };
    let f2 = spec_set_flag(f1, DALI_FLAGS_SEND_TWICE, b & SEND_TWICE_BIT != 0);
    let f3 = spec_set_flag(f2, DALI_FLAGS_EXPECT_ANSWER, b & EXPECT_ANSWER_BIT != 0);
    spec_set_flag(f3, DALI_FLAGS_RETRY, true)
}

/// The block that sends `cmd` with sequence number `seq`.
pub fn request_msg(seq: u8, cmd: &DALIcmd) -> (m: DaliMsg)
    ensures
        m.seq_of() == seq,
        m.result_of() == 0,
        m.flags_of() == spec_block_flags(*cmd),
        m.frame_of()@ == match cmd.data {
            DaliFrame::Frame8(f) => seq![f, 0u8, 0u8, 0u8],
            DaliFrame::Frame16(f) => seq![f[0], f[1], 0u8, 0u8],
            DaliFrame::Frame24(f) => seq![f[0], f[1], f[2], 0u8],
            DaliFrame::Frame25(f) => seq![f[0], f[1], f[2], f[3]],
        },
{
    let mut msg = match cmd.data {
        DaliFrame::Frame8(f) => {
            let mut m = DaliMsg::frame8(seq, &[f]);
            m.set_ignore_collisions(true);
            m.set_priority(0);
            m
        },
        DaliFrame::Frame16(f) => DaliMsg::frame16(seq, &f),
        DaliFrame::Frame24(f) => DaliMsg::frame24(seq, &f),
        DaliFrame::Frame25(f) => DaliMsg::frame25(seq, &f),
    };
    let priority = cmd.flags.priority();
    match cmd.data {
        DaliFrame::Frame8(_) => {
            msg.set_priority(0);
        },
        _ => {
            if !(1 <= priority && priority <= 5) {
                msg.set_priority(priority);
            }
        },
    }
    msg.set_send_twice(cmd.flags.send_twice());
    msg.set_expect_answer(cmd.flags.expect_answer());
    msg.set_retry(true);
    msg
}

/// Why an unsolicited block is no bus event.
#[derive(Debug, Clone, Copy, PartialEq, Eq, Structural)]
pub enum PruError {
    UnhandledFrameLength,
    DeviceError,
    TimingError,
    DeviceResult(u8),
    SequenceError { expected: u8, got: u8 },
}

impl PruError {
    /// The error as text.
    pub fn message(&self) -> (s: String)
        ensures
            s@ == match *self {
                PruError::UnhandledFrameLength => "Unhandled frame length"@,
                PruError::DeviceError => "Device error"@,
                PruError::TimingError => "Internal timing error"@,
                PruError::DeviceResult(n) => "Device result: "@ + decimal(n as nat),
                PruError::SequenceError { expected, got } => "Expected "@ + decimal(expected as nat)
                    + " as sequence number, got "@ + decimal(got as nat),
            },
    {
        match self {
            PruError::UnhandledFrameLength => "Unhandled frame length".to_owned(),
            PruError::DeviceError => "Device error".to_owned(),
            PruError::TimingError => "Internal timing error".to_owned(),
            PruError::DeviceResult(n) => device_result_text(*n),
            PruError::SequenceError { expected, got } => sequence_error_text(*expected, *got),
        }
    }
}

/// The bus event of an unsolicited block (sequence number 0): a frame
/// received (8, 16 or 24 bits), a framing error, bus power off (bus low) or
/// on (bus high); device and timing errors and other results are errors.
pub open spec fn spec_handle_block(msg: DaliMsg) -> Result<DaliBusEventType, PruError> {
    let f = msg.frame_of();
    if msg.seq_of() != 0 {
        Err(PruError::SequenceError { expected: 0, got: msg.seq_of() })
    } else if msg.result_of() == DALI_RECV_FRAME {
        let bits = spec_msg_bit_length(msg.flags_of());
        if bits == 8 {
            Ok(DaliBusEventType::Frame8(f[0]))
        } else if bits == 16 {
            Ok(DaliBusEventType::Frame16([f[0], f[1]]))
        } else if bits == 24 {
            Ok(DaliBusEventType::Frame24([f[0], f[1], f[2]]))
        } else {
            Err(PruError::UnhandledFrameLength)
        }
    } else if msg.result_of() == DALI_ERR_FRAMING {
        Ok(DaliBusEventType::FramingError)
    } else if msg.result_of() == DALI_ERR_BUS_LOW {
        Ok(DaliBusEventType::BusPowerOff)
    } else if msg.result_of() == DALI_INFO_BUS_HIGH {
        Ok(DaliBusEventType::BusPowerOn)
    } else if msg.result_of() == DALI_ERR_DRIVER {
        Err(PruError::DeviceError)
    } else if msg.result_of() == DALI_ERR_TIMING {
        Err(PruError::TimingError)
    } else {
        Err(PruError::DeviceResult(msg.result_of()))
    }
}

pub fn handle_block(msg: &DaliMsg) -> (r: Result<DaliBusEventType, PruError>)
    ensures
        r == spec_handle_block(*msg),
{
    if msg.seq() != 0 {
        return Err(PruError::SequenceError { expected: 0, got: msg.seq() });
    }
    let f = msg.frame_data();
    let result = msg.result();
    if result == DALI_RECV_FRAME {
        let bits = msg.bit_length();
        if bits == 8 {
            Ok(DaliBusEventType::Frame8(f[0]))
        } else if bits == 16 {
            Ok(DaliBusEventType::Frame16([f[0], f[1]]))
        } else if bits == 24 {
            Ok(DaliBusEventType::Frame24([f[0], f[1], f[2]]))
        } else {
            Err(PruError::UnhandledFrameLength)
        }
    } else if result == DALI_ERR_FRAMING {
        Ok(DaliBusEventType::FramingError)
    } else if result == DALI_ERR_BUS_LOW {
        Ok(DaliBusEventType::BusPowerOff)
    } else if result == DALI_INFO_BUS_HIGH {
        Ok(DaliBusEventType::BusPowerOn)
    } else if result == DALI_ERR_DRIVER {
        Err(PruError::DeviceError)
    } else if result == DALI_ERR_TIMING {
        Err(PruError::TimingError)
    } else {
        Err(PruError::DeviceResult(result))
    }
}

/// The result codes of a reply: a frame sent gives Sent, no reply gives
/// Timeout, and a framing error (such as several gears answering at once)
/// gives Framing, which is not Timeout; an 8-bit frame received gives the
/// answer it holds.
pub proof fn lemma_reply_codes(bits: u16, data: u8, r: DaliSendResult)
    ensures
        reply_result_is(DALI_SEND_DONE, bits, data, r) ==> r == DaliSendResult::Sent,
        reply_result_is(DALI_NO_REPLY, bits, data, r) ==> r == DaliSendResult::Timeout,
        reply_result_is(DALI_ERR_FRAMING, bits, data, r) ==> r == DaliSendResult::Framing && !(
        r is Timeout),
        reply_result_is(DALI_RECV_FRAME, 8, data, r) ==> r == DaliSendResult::Answer(data),
{
}

/// The error results of a reply are driver errors with their texts: a busy
/// bus, a device error, a timing error, and any other code by its number;
/// an answer of other than 8 bits is refused.
pub proof fn lemma_reply_errors(bits: u16, data: u8, r: DaliSendResult)
    ensures
        reply_result_is(DALI_ERR_BUS_BUSY, bits, data, r) ==> r is DriverError
            && r->DriverError_0@ == "Bus busy, frame not sent"@,
        reply_result_is(DALI_ERR_DRIVER, bits, data, r) ==> r is DriverError
            && r->DriverError_0@ == "Device error"@,
        reply_result_is(DALI_ERR_TIMING, bits, data, r) ==> r is DriverError
            && r->DriverError_0@ == "Internal timing error"@,
        bits != 8 && reply_result_is(DALI_RECV_FRAME, bits, data, r) ==> r is DriverError
            && r->DriverError_0@ == "Answer must be 8 bits"@,
{
}

/// An unsolicited block (sequence number 0) reports: a received frame of
/// 8, 16 or 24 bits with its data, a framing error, bus power off when the
/// bus is low and on when it is high. A block with another sequence number
/// is a sequence error.
pub proof fn lemma_unsolicited_blocks(msg: DaliMsg)
    ensures
        msg.seq_of() != 0 ==> spec_handle_block(msg) == Err::<DaliBusEventType, PruError>(
            PruError::SequenceError { expected: 0, got: msg.seq_of() },
        ),
        msg.seq_of() == 0 && msg.result_of() == DALI_RECV_FRAME && spec_msg_bit_length(
            msg.flags_of(),
        ) == 8 ==> spec_handle_block(msg) == Ok::<DaliBusEventType, PruError>(
            DaliBusEventType::Frame8(msg.frame_of()[0]),
        ),
        msg.seq_of() == 0 && msg.result_of() == DALI_RECV_FRAME && spec_msg_bit_length(
            msg.flags_of(),
        ) == 16 ==> spec_handle_block(msg) == Ok::<DaliBusEventType, PruError>(
            DaliBusEventType::Frame16([msg.frame_of()[0], msg.frame_of()[1]]),
        ),
        msg.seq_of() == 0 && msg.result_of() == DALI_ERR_FRAMING ==> spec_handle_block(msg)
            == Ok::<DaliBusEventType, PruError>(DaliBusEventType::FramingError),
        msg.seq_of() == 0 && msg.result_of() == DALI_ERR_BUS_LOW ==> spec_handle_block(msg)
            == Ok::<DaliBusEventType, PruError>(DaliBusEventType::BusPowerOff),
        msg.seq_of() == 0 && msg.result_of() == DALI_INFO_BUS_HIGH ==> spec_handle_block(msg)
            == Ok::<DaliBusEventType, PruError>(DaliBusEventType::BusPowerOn),
{
}

} // verus!
