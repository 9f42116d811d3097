//! Results of sending frames, frames and bus events, and the registry of
//! driver names.
use vstd::prelude::*;
use crate::text::{concat, hex2, text_and_hex};

verus! {

/// The outcome of sending a frame.
#[derive(Debug, Clone)]
pub enum DaliSendResult {
    /// Frame sent without errors
    Sent,
    /// An answer was received
    Answer(u8),
    /// An answer did not arrive in time
    Timeout,
    /// Invalid framing, such as a collision
    Framing,
    /// The driver failed; the text says why
    DriverError(String),
    Pending,
}

impl DaliSendResult {
    /// `Ok(())` for a frame sent without error, else the result as error.
    pub fn check_send(self) -> (r: Result<(), DaliSendResult>)
        ensures
            (self is Sent) <==> (r is Ok),
            r matches Err(e) ==> e == self,
    {
        match self {
            DaliSendResult::Sent => Ok(()),
            e => Err(e),
        }
    }

    /// The result as text.
    pub fn message(&self) -> (s: String)
        ensures
            s@ == match *self {
                DaliSendResult::Sent => "No error"@,
                DaliSendResult::Answer(a) => "Answer: 0x"@ + hex2(a),
                DaliSendResult::Timeout => "Command timed out"@,
                DaliSendResult::Framing => "Invalid framing"@,
                DaliSendResult::DriverError(e) => "Drive error: "@ + e@,
                DaliSendResult::Pending => "Pending"@,
            },
    {
        match self {
            DaliSendResult::Sent => "No error".to_owned(),
            DaliSendResult::Answer(a) => text_and_hex("Answer: 0x", *a),
            DaliSendResult::Timeout => "Command timed out".to_owned(),
            DaliSendResult::Framing => "Invalid framing".to_owned(),
            DaliSendResult::DriverError(e) => concat("Drive error: ", e.as_str()),
            DaliSendResult::Pending => "Pending".to_owned(),
        }
    }

    /// The answer byte, or the result as error when there is none.
    pub fn check_answer(self) -> (r: Result<u8, DaliSendResult>)
        ensures
            match self {
                DaliSendResult::Answer(a) => r == Ok::<u8, DaliSendResult>(a),
                _ => r == Err::<u8, DaliSendResult>(self),
            },
    {
        match self {
            DaliSendResult::Answer(a) => Ok(a),
            e => Err(e),
        }
    }
}

/// A frame on the bus: backward (8 bits) or forward (16, 24 or 25 bits).
#[derive(Debug, Clone, Copy)]
pub enum DaliFrame {
    Frame8(u8),
    Frame16([u8; 2]),
    Frame24([u8; 3]),
    Frame25([u8; 4]),
}

pub open spec fn spec_bit_length(f: DaliFrame) -> u32 {
    match f {
        DaliFrame::Frame8(_) => 8,
        DaliFrame::Frame16(_) => 16,
        DaliFrame::Frame24(_) => 24,
        DaliFrame::Frame25(_) => 25,
    }
}

impl DaliFrame {
    pub fn bit_length(&self) -> (n: u32)
        ensures
            n == spec_bit_length(*self),
    {
        match self {
            DaliFrame::Frame8(_) => 8,
            DaliFrame::Frame16(_) => 16,
            DaliFrame::Frame24(_) => 24,
            DaliFrame::Frame25(_) => 25,
        }
    }
}

/// Something that happened on the bus.
#[derive(Debug, Clone, Copy)]
pub enum DaliBusEventType {
    Frame8(u8),
    Frame16([u8; 2]),
    Frame24([u8; 3]),
    Frame25([u8; 4]),
    FramingError,
    BusPowerOff,
    BusPowerOn,
    /// The previous event was not read before the next one arrived
    Overrun,
}

/// The error when a bus event that holds no frame is turned into a frame.
#[derive(Debug, Clone, Copy, PartialEq, Eq, Structural)]
pub struct FromDaliBusEventTypeError;

pub open spec fn spec_event_of_frame(f: DaliFrame) -> DaliBusEventType {
    match f {
        DaliFrame::Frame8(x) => DaliBusEventType::Frame8(x),
        DaliFrame::Frame16(x) => DaliBusEventType::Frame16(x),
        DaliFrame::Frame24(x) => DaliBusEventType::Frame24(x),
        DaliFrame::Frame25(x) => DaliBusEventType::Frame25(x),
    }
}

pub open spec fn spec_frame_of_event(t: DaliBusEventType) -> Result<
    DaliFrame,
    FromDaliBusEventTypeError,
> {
    match t {
        DaliBusEventType::Frame8(x) => Ok(DaliFrame::Frame8(x)),
        DaliBusEventType::Frame16(x) => Ok(DaliFrame::Frame16(x)),
        DaliBusEventType::Frame24(x) => Ok(DaliFrame::Frame24(x)),
        DaliBusEventType::Frame25(x) => Ok(DaliFrame::Frame25(x)),
        _ => Err(FromDaliBusEventTypeError),
    }
}

impl TryFrom<DaliBusEventType> for DaliFrame {
    type Error = FromDaliBusEventTypeError;

    fn try_from(t: DaliBusEventType) -> (r: Result<DaliFrame, FromDaliBusEventTypeError>) {
        match t {
            DaliBusEventType::Frame8(x) => Ok(DaliFrame::Frame8(x)),
            DaliBusEventType::Frame16(x) => Ok(DaliFrame::Frame16(x)),
            DaliBusEventType::Frame24(x) => Ok(DaliFrame::Frame24(x)),
            DaliBusEventType::Frame25(x) => Ok(DaliFrame::Frame25(x)),
            _ => Err(FromDaliBusEventTypeError),
        }
    }
}

impl vstd::std_specs::convert::TryFromSpecImpl<DaliBusEventType> for DaliFrame {
    open spec fn obeys_try_from_spec() -> bool {
        true
    }

    open spec fn try_from_spec(t: DaliBusEventType) -> Result<DaliFrame, FromDaliBusEventTypeError> {
        spec_frame_of_event(t)
    }
}

impl From<DaliFrame> for DaliBusEventType {
    fn from(f: DaliFrame) -> (t: DaliBusEventType) {
        match f {
            DaliFrame::Frame8(x) => DaliBusEventType::Frame8(x),
            DaliFrame::Frame16(x) => DaliBusEventType::Frame16(x),
            DaliFrame::Frame24(x) => DaliBusEventType::Frame24(x),
            DaliFrame::Frame25(x) => DaliBusEventType::Frame25(x),
        }
    }
}

impl vstd::std_specs::convert::FromSpecImpl<DaliFrame> for DaliBusEventType {
    open spec fn obeys_from_spec() -> bool {
        true
    }

    open spec fn from_spec(f: DaliFrame) -> DaliBusEventType {
        spec_event_of_frame(f)
    }
}

/// A frame turned into a bus event gives back the frame.
pub proof fn lemma_frame_event_round_trip(f: DaliFrame)
    ensures
        spec_frame_of_event(spec_event_of_frame(f)) == Ok::<DaliFrame, FromDaliBusEventTypeError>(
            f,
        ),
{
}

/// A bus event that turns into a frame is that frame's event.
pub proof fn lemma_event_frame_round_trip(t: DaliBusEventType)
    ensures
        spec_frame_of_event(t) matches Ok(f) ==> spec_event_of_frame(f) == t,
{
}

} // verus!
