//! Identifying gear by hand: the gear found at each short address with its
//! 24-bit random (long) address, and the order in which a scan flashes it.
use vstd::prelude::*;

verus! {

/// Gear found at a short address: its long address, and the short address
/// it is to get, if any.
#[derive(Debug, Clone, Copy, PartialEq, Eq, Structural)]
pub struct GearData {
    pub long: u32,
    pub new_addr: Option<u8>,
}

/// The gear found, by short address (slot `i` for short address `i + 1`).
#[derive(Debug, Clone, Copy)]
pub struct IdentificationCtxt {
    pub gears: [Option<GearData>; 64],
}

/// The long address that the three answers of the random address queries
/// make: the high byte, the middle byte and the low byte.
pub fn long_address(high: u8, mid: u8, low: u8) -> (r: u32)
    ensures
        r == high as int * 0x10000 + mid as int * 0x100 + low as int,
{
    (high as u32) * 0x10000 + (mid as u32) * 0x100 + (low as u32)
}

/// The short addresses whose slot of `gears` holds gear, lowest first.
pub open spec fn found_addresses(gears: Seq<Option<GearData>>, n: int) -> Seq<u8>
    decreases n,
{
    if n <= 0 {
        Seq::empty()
    } else if gears[n - 1] is Some {
        found_addresses(gears, n - 1).push(n as u8)
    } else {
        found_addresses(gears, n - 1)
    }
}

impl IdentificationCtxt {
    /// No gear found yet.
    pub fn new() -> (c: IdentificationCtxt)
        ensures
            forall|i: int| 0 <= i < 64 ==> c.gears@[i] is None,
    {
        IdentificationCtxt { gears: [None; 64] }
    }

    /// Records gear with long address `long` at short address `addr`, to
    /// keep its address.
    pub fn record(&mut self, addr: u8, long: u32)
        requires
            1 <= addr <= 64,
        ensures
            final(self).gears@ == old(self).gears@.update(
                addr - 1,
                Some(GearData { long, new_addr: None }),
            ),
    {
        self.gears[(addr - 1) as usize] = Some(GearData { long, new_addr: None });
    }

    /// The short addresses of the gear found, in the order a scan flashes
    /// them: lowest first.
    pub fn scan_addresses(&self) -> (r: Vec<u8>)
        ensures
            r@ == found_addresses(self.gears@, 64),
    {
        let mut r: Vec<u8> = Vec::new();
        let mut i: usize = 0;
        while i < 64
            invariant
                i <= 64,
                self.gears@.len() == 64,
                r@ == found_addresses(self.gears@, i as int),
            decreases 64 - i,
        {
            if self.gears[i].is_some() {
                r.push((i + 1) as u8);
            }
            i = i + 1;
        }
        r
    }
}

} // verus!
