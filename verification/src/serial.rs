//! The parameters of drivers that reach their adapter over a serial line:
//! the port, the baud rate and the parity.
use vstd::prelude::*;
use vstd::string::StringSliceAdditionalSpecFns;
use vstd::utf8::{decode_utf8, is_char_boundary};
use crate::registry::OpenError;
use crate::text::{parse_u32, spec_parse_u32, str_eq};

verus! {

/// The parity of the serial line.
#[derive(Debug, Clone, Copy, PartialEq, Eq, Structural)]
pub enum Parity {
    Even,
    Odd,
    NoParity,
}

/// The serial line settings.
#[derive(Debug, Clone)]
pub struct SerialParams {
    pub port: String,
    pub baud_rate: u32,
    pub parity: Parity,
}

/// The text of the first byte of `s`.
pub open spec fn first_byte_text(s: &str) -> Seq<char> {
    decode_utf8(s.spec_bytes().subrange(0, 1))
}

/// The parity that a parity parameter gives: by its first letter, `E`,
/// `O` or `N` in either case (the text of its first byte); even when it is
/// empty or absent.
pub open spec fn spec_parity(parity: Option<&str>) -> Result<Parity, ()> {
    match parity {
        Some(p) => if p@.len() >= 1 {
            let f = first_byte_text(p);
            if f == "E"@ || f == "e"@ {
                Ok(Parity::Even)
            } else if f == "O"@ || f == "o"@ {
                Ok(Parity::Odd)
            } else if f == "N"@ || f == "n"@ {
                Ok(Parity::NoParity)
            } else {
                Err(())
            }
        } else {
            Ok(Parity::Even)
        },
        None => Ok(Parity::Even),
    }
}

/// The first letter of a parity parameter is a character of one byte.
pub open spec fn parity_param_ok(parity: Option<&str>) -> bool {
    match parity {
        Some(p) => p@.len() >= 1 ==> is_char_boundary(p.spec_bytes(), 1),
        None => true,
    }
}

fn parse_parity(parity: Option<&str>) -> (r: Result<Parity, ()>)
    requires
        parity_param_ok(parity),
    ensures
        r == spec_parity(parity),
{
    match parity {
        Some(p) => {
            if !p.is_empty() {
                let (f, _) = p.split_at(1);
                assert(f.spec_bytes() =~= p.spec_bytes().subrange(0, 1));
                proof {
                    vstd::utf8::encode_utf8_decode_utf8(f@);
                }
                assert(f@ == first_byte_text(p));
                if str_eq(f, "E") || str_eq(f, "e") {
                    Ok(Parity::Even)
                } else if str_eq(f, "O") || str_eq(f, "o") {
                    Ok(Parity::Odd)
                } else if str_eq(f, "N") || str_eq(f, "n") {
                    Ok(Parity::NoParity)
                } else {
                    Err(())
                }
            } else {
                Ok(Parity::Even)
            }
        },
        None => Ok(Parity::Even),
    }
}

/// The serial settings from the driver parameters `port`, `baud_rate` and
/// `parity`: the port defaults to `/dev/ttyACM0`, the baud rate to 9600,
/// the parity to even.
pub fn parse_serial_params(port: Option<&str>, baud_rate: Option<&str>, parity: Option<&str>) -> (r:
    Result<SerialParams, OpenError>)
    requires
        parity_param_ok(parity),
    ensures
        match r {
            Ok(p) => {
                &&& p.port@ == match port {
                    Some(s) => s@,
                    None => "/dev/ttyACM0"@,
                }
                &&& match baud_rate {
                    Some(s) => spec_parse_u32(s@) == Some(p.baud_rate),
                    None => p.baud_rate == 9600,
                }
                &&& spec_parity(parity) == Ok::<Parity, ()>(p.parity)
            },
            Err(OpenError::ParameterError(m)) => {
                ||| (baud_rate matches Some(s) && spec_parse_u32(s@) is None && m@
                    == "baud_rate has invalid value"@)
                ||| (!(baud_rate matches Some(s) && spec_parse_u32(s@) is None) && spec_parity(
                    parity,
                ) is Err && m@ == "parity has invalid value"@)
            },
            Err(_) => false,
        },
{
    let port_name = match port {
        Some(s) => s.to_owned(),
        None => "/dev/ttyACM0".to_owned(),
    };
    let baud: u32 = match baud_rate {
        None => 9600,
        Some(s) => match parse_u32(s) {
            Some(b) => b,
            None => {
                return Err(OpenError::ParameterError("baud_rate has invalid value".to_owned()));
            },
        },
    };
    match parse_parity(parity) {
        Ok(p) => Ok(SerialParams { port: port_name, baud_rate: baud, parity: p }),
        Err(()) => Err(OpenError::ParameterError("parity has invalid value".to_owned())),
    }
}

} // verus!
