//! DALI control gear addresses and their encoding in the address byte of
//! a forward frame.
use vstd::prelude::*;

verus! {

/// Highest short address.
pub const MAX_SHORT: u8 = 63;
/// Number of groups that control gear can belong to.
pub const GROUP_COUNT: u8 = 16;

/// A short address, 0..=63 on the bus (shown to users as 1..=64).
#[derive(Debug, Clone, Copy, PartialEq, Eq, Structural)]
pub struct Short(pub u8);

/// A group address, 0..=15 on the bus (shown to users as 1..=16).
#[derive(Debug, Clone, Copy, PartialEq, Eq, Structural)]
pub struct Group(pub u8);

/// Any destination of a forward frame.
#[derive(Debug, Clone, Copy, PartialEq, Eq, Structural)]
pub enum Address {
    Short(Short),
    Group(Group),
    Broadcast,
    BroadcastUnaddressed,
}

/// The first byte of a 16-bit forward frame with the selector bit (bit 0)
/// set, as commands carry it; direct arc power control clears the bit.
#[derive(Debug, Clone, Copy, PartialEq, Eq, Structural)]
pub struct AddressByte(pub u8);

impl Short {
    /// Well-formedness: the value fits in six bits.
    pub open spec fn wf(self) -> bool {
        self.0 <= MAX_SHORT
    }

    pub open spec fn spec_value(self) -> u8 {
        self.0
    }

    /// Short address with bus value `value`.
    pub fn new(value: u8) -> (s: Short)
        requires
            value <= MAX_SHORT,
        ensures
            s.spec_value() == value,
            s.wf(),
    {
        Short(value)
    }

    /// The short address the user calls `display` (1..=64), if there is one.
    pub fn from_display_value(display: u8) -> (r: Option<Short>)
        ensures
            (1 <= display <= 64) <==> r.is_some(),
            r matches Some(s) ==> s.wf() && s.spec_value() == display - 1,
    {
        if 1 <= display && display <= 64 {
            Some(Short(display - 1))
        } else {
            None
        }
    }

    /// The bus value, 0..=63.
    pub fn value(&self) -> (v: u8)
        ensures
            v == self.spec_value(),
    {
        self.0
    }

    /// The value shown to users, 1..=64.
    pub fn display_value(&self) -> (v: u8)
        requires
            self.wf(),
        ensures
            v == self.spec_value() + 1,
    {
        self.0 + 1
    }

    /// The address byte of a forward frame to this short address.
    pub fn bus_address(&self) -> (b: u8)
        requires
            self.wf(),
        ensures
            b == 2 * self.spec_value(),
    {
        self.0 * 2
    }
}

impl Group {
    pub open spec fn wf(self) -> bool {
        self.0 < GROUP_COUNT
    }

    pub open spec fn spec_value(self) -> u8 {
        self.0
    }

    /// Group address with bus value `value`.
    pub fn new(value: u8) -> (g: Group)
        requires
            value < GROUP_COUNT,
        ensures
            g.spec_value() == value,
            g.wf(),
    {
        Group(value)
    }

    /// The group the user calls `display` (1..=16), if there is one.
    pub fn from_display_value(display: u8) -> (r: Option<Group>)
        ensures
            (1 <= display <= GROUP_COUNT) <==> r.is_some(),
            r matches Some(g) ==> g.wf() && g.spec_value() == display - 1,
    {
        if 1 <= display && display <= GROUP_COUNT {
            Some(Group(display - 1))
        } else {
            None
        }
    }

    pub fn value(&self) -> (v: u8)
        ensures
            v == self.spec_value(),
    {
        self.0
    }

    pub fn display_value(&self) -> (v: u8)
        requires
            self.wf(),
        ensures
            v == self.spec_value() + 1,
    {
        self.0 + 1
    }

    /// The address byte of a forward frame to this group.
    pub fn bus_address(&self) -> (b: u8)
        requires
            self.wf(),
        ensures
            b == 0x80 + 2 * self.spec_value(),
    {
        0x80 + self.0 * 2
    }
}

/// The address byte, selector bit clear, that addresses `a`.
pub open spec fn spec_address_byte(a: Address) -> u8 {
    match a {
        Address::Short(s) => (2 * s.spec_value()) as u8,
        Address::Group(g) => (0x80 + 2 * g.spec_value()) as u8,
        Address::Broadcast => 0xfe,
        Address::BroadcastUnaddressed => 0xfc,
    }
}

/// The address that an address byte selects, the selector bit ignored.
pub open spec fn spec_from_bus_address(b: u8) -> Option<Address> {
    if b < 0x80 {
        Some(Address::Short(Short((b / 2) as u8)))
    } else if b < 0xa0 {
        Some(Address::Group(Group(((b - 0x80) / 2) as u8)))
    } else if b / 2 == 0x7e {
        Some(Address::BroadcastUnaddressed)
    } else if b / 2 == 0x7f {
        Some(Address::Broadcast)
    } else {
        None
    }
}

impl Address {
    pub open spec fn wf(self) -> bool {
        match self {
            Address::Short(s) => s.wf(),
            Address::Group(g) => g.wf(),
            _ => true,
        }
    }

    /// Decodes the address byte of a forward frame; bytes 0xa0..=0xfb are
    /// special commands, not addresses.
    pub fn from_bus_address(b: u8) -> (r: Option<Address>)
        ensures
            r == spec_from_bus_address(b),
            r matches Some(a) ==> a.wf(),
    {
        if b < 0x80 {
            Some(Address::Short(Short(b / 2)))
        } else if b < 0xa0 {
            Some(Address::Group(Group((b - 0x80) / 2)))
        } else if b / 2 == 0x7e {
            Some(Address::BroadcastUnaddressed)
        } else if b / 2 == 0x7f {
            Some(Address::Broadcast)
        } else {
            None
        }
    }

    /// The address byte of a forward frame to this address.
    pub fn bus_address(&self) -> (b: u8)
        requires
            self.wf(),
        ensures
            b == spec_address_byte(*self),
    {
        match self {
            Address::Short(s) => s.0 * 2,
            Address::Group(g) => 0x80 + g.0 * 2,
            Address::Broadcast => 0xfe,
            Address::BroadcastUnaddressed => 0xfc,
        }
    }
}

impl From<Short> for Address {
    fn from(s: Short) -> (a: Address) {
        Address::Short(s)
    }
}

impl vstd::std_specs::convert::FromSpecImpl<Short> for Address {
    open spec fn obeys_from_spec() -> bool {
        true
    }

    open spec fn from_spec(s: Short) -> Address {
        Address::Short(s)
    }
}

impl From<Group> for Address {
    fn from(g: Group) -> (a: Address) {
        Address::Group(g)
    }
}

impl vstd::std_specs::convert::FromSpecImpl<Group> for Address {
    open spec fn obeys_from_spec() -> bool {
        true
    }

    open spec fn from_spec(g: Group) -> Address {
        Address::Group(g)
    }
}

/// The error when an address is not of the kind asked for.
#[derive(Debug, Clone, Copy, PartialEq, Eq, Structural)]
pub struct WrongAddressKind;

impl TryFrom<Address> for Short {
    type Error = WrongAddressKind;

    fn try_from(a: Address) -> (r: Result<Short, WrongAddressKind>) {
        match a {
            Address::Short(s) => Ok(s),
            _ => Err(WrongAddressKind),
        }
    }
}

impl vstd::std_specs::convert::TryFromSpecImpl<Address> for Short {
    open spec fn obeys_try_from_spec() -> bool {
        true
    }

    open spec fn try_from_spec(a: Address) -> Result<Short, WrongAddressKind> {
        match a {
            Address::Short(s) => Ok(s),
            _ => Err(WrongAddressKind),
        }
    }
}

impl TryFrom<Address> for Group {
    type Error = WrongAddressKind;

    fn try_from(a: Address) -> (r: Result<Group, WrongAddressKind>) {
        match a {
            Address::Group(g) => Ok(g),
            _ => Err(WrongAddressKind),
        }
    }
}

impl vstd::std_specs::convert::TryFromSpecImpl<Address> for Group {
    open spec fn obeys_try_from_spec() -> bool {
        true
    }

    open spec fn try_from_spec(a: Address) -> Result<Group, WrongAddressKind> {
        match a {
            Address::Group(g) => Ok(g),
            _ => Err(WrongAddressKind),
        }
    }
}

impl PartialEq<Short> for Address {
    fn eq(&self, other: &Short) -> (r: bool) {
        match self {
            Address::Short(s) => s.0 == other.0,
            _ => false,
        }
    }
}

impl vstd::std_specs::cmp::PartialEqSpecImpl<Short> for Address {
    open spec fn obeys_eq_spec() -> bool {
        true
    }

    open spec fn eq_spec(&self, other: &Short) -> bool {
        *self == Address::Short(*other)
    }
}

impl PartialEq<Group> for Address {
    fn eq(&self, other: &Group) -> (r: bool) {
        match self {
            Address::Group(g) => g.0 == other.0,
            _ => false,
        }
    }
}

impl vstd::std_specs::cmp::PartialEqSpecImpl<Group> for Address {
    open spec fn obeys_eq_spec() -> bool {
        true
    }

    open spec fn eq_spec(&self, other: &Group) -> bool {
        *self == Address::Group(*other)
    }
}

impl From<Address> for AddressByte {
    fn from(a: Address) -> (b: AddressByte) {
        AddressByte(
            match a {
                Address::Short(s) => (s.0 % 64) * 2 + 1,
                Address::Group(g) => 0x80 + (g.0 % 16) * 2 + 1,
                Address::Broadcast => 0xff,
                Address::BroadcastUnaddressed => 0xfd,
            },
        )
    }
}

impl vstd::std_specs::convert::FromSpecImpl<Address> for AddressByte {
    open spec fn obeys_from_spec() -> bool {
        true
    }

    open spec fn from_spec(a: Address) -> AddressByte {
        AddressByte(
            match a {
                Address::Short(s) => ((s.0 % 64) * 2 + 1) as u8,
                Address::Group(g) => (0x80 + (g.0 % 16) * 2 + 1) as u8,
                Address::Broadcast => 0xff,
                Address::BroadcastUnaddressed => 0xfd,
            },
        )
    }
}

/// An address written as an address byte reads back as the same address.
pub proof fn lemma_address_round_trip(a: Address)
    requires
        a.wf(),
    ensures
        spec_from_bus_address(spec_address_byte(a)) == Some(a),
{
}

/// An address byte that names an address, written again, is the same byte
/// but for the selector bit (bit 0).
pub proof fn lemma_address_byte_round_trip(b: u8)
    requires
        spec_from_bus_address(b) is Some,
    ensures
        spec_address_byte(spec_from_bus_address(b)->0) == b - b % 2,
{
}

/// The address byte of an address, as commands carry it, names the same
/// address: it is the bus address with the selector bit set.
pub proof fn lemma_command_byte_names_address(a: Address)
    requires
        a.wf(),
    ensures
        <AddressByte as vstd::std_specs::convert::FromSpec<Address>>::from_spec(a).0
            == spec_address_byte(a) + 1,
        spec_from_bus_address(
            <AddressByte as vstd::std_specs::convert::FromSpec<Address>>::from_spec(a).0,
        ) == Some(a),
{
}

/// The shown value of a short address or group is in the range that
/// `from_display_value` takes, and reads back as the same address there.
pub proof fn lemma_display_round_trip(s: Short, g: Group)
    requires
        s.wf(),
        g.wf(),
    ensures
        1 <= s.spec_value() + 1 <= 64 && Short((s.spec_value() + 1 - 1) as u8) == s,
        1 <= g.spec_value() + 1 <= GROUP_COUNT && Group((g.spec_value() + 1 - 1) as u8) == g,
{
}

} // verus!
