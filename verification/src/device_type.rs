//! Device types of control gear (IEC 62386 part 2xx).
use vstd::prelude::*;
use crate::text::{decimal, text_and_number};

verus! {

pub const FLORESCENT: u8 = 0;
pub const EMERGENCY: u8 = 1;
pub const DISCHARGE: u8 = 2;
pub const LV_HALOGEN: u8 = 3;
pub const INCANDESCENT: u8 = 4;
pub const DC_CONTROL: u8 = 5;
pub const LED: u8 = 6;
pub const SWITCHING: u8 = 7;
pub const COLOUR: u8 = 8;
pub const UNIMPLEMENTED: u8 = 254;

/// The answer to QUERY DEVICE TYPE.
#[derive(Debug, Clone, Copy, PartialEq, Eq, Structural)]
pub struct DeviceType(pub u8);

impl DeviceType {
    pub fn new(dtype: u8) -> (t: DeviceType)
        ensures
            t.0 == dtype,
    {
        DeviceType(dtype)
    }

    pub fn value(&self) -> (v: u8)
        ensures
            v == self.0,
    {
        self.0
    }

    /// The name of the type; "Unknown type" and the number for a type
    /// without a name.
    pub fn to_string(&self) -> (s: String)
        ensures
            s@ == match device_type_name(self.0) {
                Some(n) => n,
                None => "Unknown type "@ + decimal(self.0 as nat),
            },
    {
        let name: &'static str = if self.0 == FLORESCENT {
            "Florescent"
        } else if self.0 == EMERGENCY {
            "Self-contained emergency"
        } else if self.0 == DISCHARGE {
            "Discharge (HID)"
        } else if self.0 == LV_HALOGEN {
            "Low-voltage halogen"
        } else if self.0 == INCANDESCENT {
            "Incandescent"
        } else if self.0 == DC_CONTROL {
            "Conversion to D.C. voltage"
        } else if self.0 == LED {
            "LED"
        } else if self.0 == SWITCHING {
            "Switching"
        } else if self.0 == COLOUR {
            "Colour"
        } else if self.0 == UNIMPLEMENTED {
            "Not implemented"
        } else {
            return text_and_number("Unknown type ", self.0);
        };
        name.to_owned()
    }
}

/// The name of device type `t`, if it has one.
pub open spec fn device_type_name(t: u8) -> Option<Seq<char>> {
    if t == FLORESCENT {
        Some("Florescent"@)
    } else if t == EMERGENCY {
        Some("Self-contained emergency"@)
    } else if t == DISCHARGE {
        Some("Discharge (HID)"@)
    } else if t == LV_HALOGEN {
        Some("Low-voltage halogen"@)
    } else if t == INCANDESCENT {
        Some("Incandescent"@)
    } else if t == DC_CONTROL {
        Some("Conversion to D.C. voltage"@)
    } else if t == LED {
        Some("LED"@)
    } else if t == SWITCHING {
        Some("Switching"@)
    } else if t == COLOUR {
        Some("Colour"@)
    } else if t == UNIMPLEMENTED {
        Some("Not implemented"@)
    } else {
        None
    }
}

} // verus!
