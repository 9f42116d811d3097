//! The status byte of control gear.
use vstd::prelude::*;
use crate::text::{joined, join_texts};

verus! {

pub const GEAR_FAILURE: u8 = 0x01;
pub const LAMP_FAILURE: u8 = 0x02;
pub const LAMP_ON: u8 = 0x04;
pub const LIMIT_ERROR: u8 = 0x08;
pub const FADE_RUNNING: u8 = 0x10;
pub const RESET_STATE: u8 = 0x20;
pub const NO_ADDRESS: u8 = 0x40;
pub const POWER_CYCLE: u8 = 0x80;

/// The answer to QUERY STATUS.
#[derive(Debug, Clone, Copy, PartialEq, Eq, Structural)]
pub struct GearStatus(pub u8);

impl GearStatus {
    pub fn new(status: u8) -> (s: GearStatus)
        ensures
            s.0 == status,
    {
        GearStatus(status)
    }

    pub fn value(&self) -> (v: u8)
        ensures
            v == self.0,
    {
        self.0
    }

    /// The names of the flags that are set, in bit order.
    pub fn flag_names(&self) -> (v: Vec<&'static str>)
        ensures
            v@.map_values(|p: &'static str| p@) == status_names(self.0),
    {
        let mut v: Vec<&'static str> = Vec::new();
        if self.0 & GEAR_FAILURE != 0 {
            v.push("gear failure");
        }
        if self.0 & LAMP_FAILURE != 0 {
            v.push("lamp failure");
        }
        if self.0 & LAMP_ON != 0 {
            v.push("lamp on");
        }
        if self.0 & LIMIT_ERROR != 0 {
            v.push("limit error");
        }
        if self.0 & FADE_RUNNING != 0 {
            v.push("fade running");
        }
        if self.0 & RESET_STATE != 0 {
            v.push("reset state");
        }
        if self.0 & NO_ADDRESS != 0 {
            v.push("no address");
        }
        if self.0 & POWER_CYCLE != 0 {
            v.push("power cycle");
        }
        assert(v@.map_values(|p: &'static str| p@) =~= status_names(self.0));
        v
    }

    /// The names of the flags that are set, separated by commas.
    pub fn to_string(&self) -> (s: String)
        ensures
            s@ == joined(status_names(self.0), ", "@),
    {
        let v = self.flag_names();
        join_texts(&v, ", ")
    }
}

/// `names` with `name` added when `set`.
pub open spec fn add_if(names: Seq<Seq<char>>, set: bool, name: Seq<char>) -> Seq<Seq<char>> {
    if set {
        names.push(name)
    } else {
        names
    }
}

/// The names of the flags set in `s`, in bit order.
pub open spec fn status_names(s: u8) -> Seq<Seq<char>> {
    let n0 = add_if(Seq::empty(), s & GEAR_FAILURE != 0, "gear failure"@);
    let n1 = add_if(n0, s & LAMP_FAILURE != 0, "lamp failure"@);
    let n2 = add_if(n1, s & LAMP_ON != 0, "lamp on"@);
    let n3 = add_if(n2, s & LIMIT_ERROR != 0, "limit error"@);
    let n4 = add_if(n3, s & FADE_RUNNING != 0, "fade running"@);
    let n5 = add_if(n4, s & RESET_STATE != 0, "reset state"@);
    let n6 = add_if(n5, s & NO_ADDRESS != 0, "no address"@);
    add_if(n6, s & POWER_CYCLE != 0, "power cycle"@)
}

} // verus!
