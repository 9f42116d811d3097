//! Fade times of control gear: the 4-bit code that the gear stores.
use vstd::prelude::*;

verus! {

/// Why a text is no fade time or fade rate.
#[derive(Debug, Clone, Copy, PartialEq, Eq, Structural)]
pub enum Error {
    InvalidFadeTimeStr,
    InvalidFadeRateStr,
}

impl Error {
    /// The error's description.
    pub fn message(&self) -> (s: &'static str)
        ensures
            s@ == match *self {
                Error::InvalidFadeTimeStr => "Fade time must be an integer or an number followed by \"min\" or \"s\""@,
                Error::InvalidFadeRateStr => "Fade rate must be an integer or an number followed by \"min\" or \"s\""@,
            },
    {
        match self {
            Error::InvalidFadeTimeStr => "Fade time must be an integer or an number followed by \"min\" or \"s\"",
            Error::InvalidFadeRateStr => "Fade rate must be an integer or an number followed by \"min\" or \"s\"",
        }
    }
}

/// A fade time code, 0 to 15.
#[derive(Debug, Clone, Copy, PartialEq, Eq, Structural)]
pub struct FadeTime(pub u8);

impl FadeTime {
    /// The fade time with code `value`.
    pub fn from_value(value: u8) -> (f: FadeTime)
        requires
            value <= 15,
        ensures
            f.0 == value,
    {
        FadeTime(value)
    }

    /// The fade time of a whole number given as text: its low byte is the
    /// code.
    pub fn from_integer(n: u32) -> (f: FadeTime)
        requires
            n % 256 <= 15,
        ensures
            f.0 == n % 256,
    {
        FadeTime::from_value((n % 256) as u8)
    }

    pub fn value(&self) -> (v: u8)
        ensures
            v == self.0,
    {
        self.0
    }
}

} // verus!
