//! Sets of short addresses (0 to 63), held as a 64-bit mask.
use vstd::prelude::*;
use crate::bits::{
    bit_set,
    differ_at,
    lemma_u64_bit_ops,
    lemma_u64_differ,
    lemma_u64_range_mask,
    lemma_u64_single_bit,
};

verus! {

/// A set of short addresses; address `a` is in the set when bit `a` is set.
#[derive(PartialEq, Eq, Structural, Debug, Clone, Copy)]
pub struct AddressSet(u64);

/// The addresses whose bits are set in `bits`.
pub open spec fn members(bits: u64) -> Set<u8> {
    Set::new(|a: u8| a < 64 && bit_set(bits, a as u64))
}

impl View for AddressSet {
    type V = Set<u8>;

    closed spec fn view(&self) -> Set<u8> {
        members(self.0)
    }
}

/// Every member of a set is a short address.
pub proof fn lemma_members_are_short(s: AddressSet, a: u8)
    requires
        s@.contains(a),
    ensures
        a < 64,
{
}

/// Two address sets with the same members are the same value.
pub proof fn lemma_view_injective(s: AddressSet, t: AddressSet)
    requires
        s@ == t@,
    ensures
        s == t,
{
    if s.0 != t.0 {
        lemma_u64_differ(s.0, t.0);
        let a = choose|a: u64| a < 64 && #[trigger] differ_at(s.0, t.0, a);
        let b = a as u8;
        assert(b as u64 == a);
        assert(members(s.0).contains(b) != members(t.0).contains(b));
    }
}

proof fn lemma_members_zero()
    ensures
        members(0) == Set::<u8>::empty(),
{
    assert forall|a: u8| !members(0).contains(a) by {
        if a < 64 {
            lemma_u64_bit_ops(0, 0, a as u64);
        }
    }
    assert(members(0) =~= Set::<u8>::empty());
}

proof fn lemma_members_insert(x: u64, b: u8)
    requires
        b < 64,
    ensures
        members(x | (1u64 << (b as u64))) == members(x).insert(b),
{
    assert forall|a: u8| #[trigger] members(x | (1u64 << (b as u64))).contains(a) == members(
        x,
    ).insert(b).contains(a) by {
        if a < 64 {
            lemma_u64_bit_ops(x, 1u64 << (b as u64), a as u64);
            lemma_u64_single_bit(a as u64, b as u64);
        }
    }
    assert(members(x | (1u64 << (b as u64))) =~= members(x).insert(b));
}

proof fn lemma_members_remove(x: u64, b: u8)
    requires
        b < 64,
    ensures
        members(x & !(1u64 << (b as u64))) == members(x).remove(b),
{
    assert forall|a: u8| #[trigger] members(x & !(1u64 << (b as u64))).contains(a) == members(
        x,
    ).remove(b).contains(a) by {
        if a < 64 {
            lemma_u64_bit_ops(x, 1u64 << (b as u64), a as u64);
            lemma_u64_single_bit(a as u64, b as u64);
        }
    }
    assert(members(x & !(1u64 << (b as u64))) =~= members(x).remove(b));
}

proof fn lemma_members_union(x: u64, y: u64)
    ensures
        members(x | y) == members(x).union(members(y)),
{
    assert forall|a: u8| #[trigger] members(x | y).contains(a) == members(x).union(
        members(y),
    ).contains(a) by {
        if a < 64 {
            lemma_u64_bit_ops(x, y, a as u64);
        }
    }
    assert(members(x | y) =~= members(x).union(members(y)));
}

proof fn lemma_members_difference(x: u64, y: u64)
    ensures
        members(x & !y) == members(x).difference(members(y)),
{
    assert forall|a: u8| #[trigger] members(x & !y).contains(a) == members(x).difference(
        members(y),
    ).contains(a) by {
        if a < 64 {
            lemma_u64_bit_ops(x, y, a as u64);
        }
    }
    assert(members(x & !y) =~= members(x).difference(members(y)));
}

/// The addresses `start..end`.
pub open spec fn address_range(start: u8, end: u8) -> Set<u8> {
    Set::new(|a: u8| start <= a < end)
}

/// Taking one address out of a range leaves the two ranges on either side.
pub proof fn lemma_range_split(start: u8, b: u8, end: u8)
    requires
        start <= b < end,
    ensures
        address_range(start, end).remove(b) == address_range(start, b).union(
            address_range((b + 1) as u8, end),
        ),
{
    assert(address_range(start, end).remove(b) =~= address_range(start, b).union(
        address_range((b + 1) as u8, end),
    ));
}

/// A range one longer is the range with its last address added, so a range
/// is the set built by adding its addresses one at a time.
pub proof fn lemma_range_extend(start: u8, end: u8)
    requires
        start <= end < 255,
    ensures
        address_range(start, (end + 1) as u8) == address_range(start, end).insert(end),
        address_range(start, start) == Set::<u8>::empty(),
{
    assert(address_range(start, (end + 1) as u8) =~= address_range(start, end).insert(end));
    assert(address_range(start, start) =~= Set::<u8>::empty());
}

/// The addresses listed by `to_vec` give the set back through `from_slice`:
/// each is a short address, and they make up the set.
pub proof fn lemma_to_vec_from_slice(s: AddressSet, v: Seq<u8>)
    requires
        forall|a: u8| v.contains(a) <==> s@.contains(a),
    ensures
        forall|i: int| 0 <= i < v.len() ==> v[i] < 64,
        v.to_set() == s@,
{
    assert forall|i: int| 0 <= i < v.len() implies v[i] < 64 by {
        assert(v.contains(v[i]));
    }
    assert(v.to_set() =~= s@);
}

impl AddressSet {
    /// The empty set.
    pub fn new() -> (r: AddressSet)
        ensures
            r@ == Set::<u8>::empty(),
    {
        proof {
            lemma_members_zero();
        }
        AddressSet(0)
    }

    /// The set of the addresses in `addrs`.
    pub fn from_slice(addrs: &[u8]) -> (r: AddressSet)
        requires
            forall|i: int| 0 <= i < addrs.len() ==> addrs[i] < 64,
        ensures
            r@ == addrs@.to_set(),
    {
        let mut s: u64 = 0;
        proof {
            lemma_members_zero();
        }
        let mut i: usize = 0;
        while i < addrs.len()
            invariant
                i <= addrs.len(),
                forall|j: int| 0 <= j < addrs.len() ==> addrs[j] < 64,
                forall|a: u8|
                    #[trigger] members(s).contains(a) <==> exists|j: int|
                        0 <= j < i && addrs[j] == a,
            decreases addrs.len() - i,
        {
            let addr = addrs[i];
            proof {
                lemma_members_insert(s, addr);
                assert forall|a: u8| #[trigger]
                    members(s).insert(addr).contains(a) <==> exists|j: int|
                        0 <= j < i + 1 && addrs[j] == a by {
                    if a == addr {
                        assert(addrs[i as int] == a);
                    }
                }
            }
            s = s | (1u64 << (addr as u64));
            i = i + 1;
        }
        proof {
            assert(members(s) =~= addrs@.to_set());
        }
        AddressSet(s)
    }

    /// The members in increasing order.
    pub fn to_vec(&self) -> (r: Vec<u8>)
        ensures
            forall|i: int, j: int| 0 <= i < j < r.len() ==> r[i] < r[j],
            forall|a: u8| r@.contains(a) <==> self@.contains(a),
    {
        let mut r: Vec<u8> = Vec::new();
        let mut b: u8 = 0;
        while b < 64
            invariant
                b <= 64,
                forall|i: int, j: int| 0 <= i < j < r.len() ==> r[i] < r[j],
                forall|i: int| 0 <= i < r.len() ==> r[i] < b,
                forall|a: u8| a < b ==> (r@.contains(a) <==> self@.contains(a)),
                forall|a: u8| a >= b ==> !r@.contains(a),
            decreases 64 - b,
        {
            let ghost before = r@;
            if self.0 & (1u64 << (b as u64)) != 0 {
                r.push(b);
                proof {
                    assert forall|a: u8| #[trigger] r@.contains(a) <==> (before.contains(a) || a
                        == b) by {
                        if a == b {
                            assert(r@[r@.len() - 1] == b);
                        }
                        if before.contains(a) {
                            let k = choose|k: int| 0 <= k < before.len() && before[k] == a;
                            assert(r@[k] == a);
                        }
                        if r@.contains(a) && a != b {
                            let k = choose|k: int| 0 <= k < r@.len() && r@[k] == a;
                            assert(before[k] == a);
                        }
                    }
                }
            }
            b = b + 1;
        }
        r
    }

    /// The set of the addresses `addrs.start..addrs.end`; empty when the
    /// range is empty.
    pub fn from_range(addrs: core::ops::Range<u8>) -> (r: AddressSet)
        requires
            addrs.start >= addrs.end || addrs.end <= 64,
        ensures
            r@ == address_range(addrs.start, addrs.end),
    {
        if addrs.start >= addrs.end {
            proof {
                lemma_members_zero();
                assert(address_range(addrs.start, addrs.end) =~= Set::<u8>::empty());
            }
            return AddressSet(0);
        }
        proof {
            lemma_u64_range_mask(addrs.start as u64, (addrs.end - 1) as u64, 0);
            lemma_u64_range_mask((addrs.end - 1) as u64, (addrs.end - 1) as u64, 0);
        }
        let start_bit = 1u64 << (addrs.start as u64);
        let end_bit = 1u64 << ((addrs.end - 1) as u64);
        assert(end_bit <= 0x8000_0000_0000_0000u64);
        let s = !(start_bit - 1) & ((end_bit - 1) + end_bit);
        proof {
            assert forall|a: u8| #[trigger] members(s).contains(a) == address_range(
                addrs.start,
                addrs.end,
            ).contains(a) by {
                if a < 64 {
                    lemma_u64_range_mask(addrs.start as u64, (addrs.end - 1) as u64, a as u64);
                }
            }
            assert(members(s) =~= address_range(addrs.start, addrs.end));
        }
        AddressSet(s)
    }

    /// The set has no member.
    pub fn is_empty(&self) -> (r: bool)
        ensures
            r == (self@ == Set::<u8>::empty()),
    {
        proof {
            lemma_members_zero();
            if self@ == Set::<u8>::empty() {
                lemma_view_injective(*self, AddressSet(0));
            }
        }
        self.0 == 0
    }
}

impl core::ops::Add<u8> for AddressSet {
    type Output = AddressSet;

    fn add(self, b: u8) -> (r: AddressSet)
        ensures
            r@ == self@.insert(b),
    {
        proof {
            lemma_members_insert(self.0, b);
        }
        AddressSet(self.0 | (1u64 << (b as u64)))
    }
}

impl vstd::std_specs::ops::AddSpecImpl<u8> for AddressSet {
    open spec fn obeys_add_spec() -> bool {
        true
    }

    open spec fn add_req(self, b: u8) -> bool {
        b < 64
    }

    closed spec fn add_spec(self, b: u8) -> AddressSet {
        AddressSet(self.0 | (1u64 << (b as u64)))
    }
}

impl core::ops::AddAssign<u8> for AddressSet {
    /// Adds short address `b`.
    fn add_assign(&mut self, b: u8)
        requires
            b < 64,
        ensures
            final(self)@ == old(self)@.insert(b),
    {
        proof {
            lemma_members_insert(self.0, b);
        }
        self.0 = self.0 | (1u64 << (b as u64));
    }
}

impl core::ops::Add<AddressSet> for AddressSet {
    type Output = AddressSet;

    fn add(self, other: AddressSet) -> (r: AddressSet)
        ensures
            r@ == self@.union(other@),
    {
        proof {
            lemma_members_union(self.0, other.0);
        }
        AddressSet(self.0 | other.0)
    }
}

impl vstd::std_specs::ops::AddSpecImpl<AddressSet> for AddressSet {
    open spec fn obeys_add_spec() -> bool {
        true
    }

    open spec fn add_req(self, other: AddressSet) -> bool {
        true
    }

    closed spec fn add_spec(self, other: AddressSet) -> AddressSet {
        AddressSet(self.0 | other.0)
    }
}

impl<'a> core::ops::Add<&'a AddressSet> for AddressSet {
    type Output = AddressSet;

    fn add(self, other: &'a AddressSet) -> (r: AddressSet)
        ensures
            r@ == self@.union(other@),
    {
        proof {
            lemma_members_union(self.0, other.0);
        }
        AddressSet(self.0 | other.0)
    }
}

impl<'a> vstd::std_specs::ops::AddSpecImpl<&'a AddressSet> for AddressSet {
    open spec fn obeys_add_spec() -> bool {
        true
    }

    open spec fn add_req(self, other: &'a AddressSet) -> bool {
        true
    }

    closed spec fn add_spec(self, other: &'a AddressSet) -> AddressSet {
        AddressSet(self.0 | other.0)
    }
}

impl<'a> core::ops::AddAssign<&'a AddressSet> for AddressSet {
    fn add_assign(&mut self, other: &'a AddressSet)
        ensures
            final(self)@ == old(self)@.union(other@),
    {
        proof {
            lemma_members_union(self.0, other.0);
        }
        self.0 = self.0 | other.0;
    }
}

impl core::ops::Sub<u8> for AddressSet {
    type Output = AddressSet;

    fn sub(self, b: u8) -> (r: AddressSet)
        ensures
            r@ == self@.remove(b),
    {
        proof {
            lemma_members_remove(self.0, b);
        }
        AddressSet(self.0 & !(1u64 << (b as u64)))
    }
}

impl vstd::std_specs::ops::SubSpecImpl<u8> for AddressSet {
    open spec fn obeys_sub_spec() -> bool {
        true
    }

    open spec fn sub_req(self, b: u8) -> bool {
        b < 64
    }

    closed spec fn sub_spec(self, b: u8) -> AddressSet {
        AddressSet(self.0 & !(1u64 << (b as u64)))
    }
}

impl core::ops::SubAssign<u8> for AddressSet {
    /// Removes short address `b`.
    fn sub_assign(&mut self, b: u8)
        requires
            b < 64,
        ensures
            final(self)@ == old(self)@.remove(b),
    {
        proof {
            lemma_members_remove(self.0, b);
        }
        self.0 = self.0 & !(1u64 << (b as u64));
    }
}

impl core::ops::Sub<AddressSet> for AddressSet {
    type Output = AddressSet;

    fn sub(self, other: AddressSet) -> (r: AddressSet)
        ensures
            r@ == self@.difference(other@),
    {
        proof {
            lemma_members_difference(self.0, other.0);
        }
        AddressSet(self.0 & !other.0)
    }
}

impl vstd::std_specs::ops::SubSpecImpl<AddressSet> for AddressSet {
    open spec fn obeys_sub_spec() -> bool {
        true
    }

    open spec fn sub_req(self, other: AddressSet) -> bool {
        true
    }

    closed spec fn sub_spec(self, other: AddressSet) -> AddressSet {
        AddressSet(self.0 & !other.0)
    }
}

impl<'a> core::ops::Sub<&'a AddressSet> for AddressSet {
    type Output = AddressSet;

    fn sub(self, other: &'a AddressSet) -> (r: AddressSet)
        ensures
            r@ == self@.difference(other@),
    {
        proof {
            lemma_members_difference(self.0, other.0);
        }
        AddressSet(self.0 & !other.0)
    }
}

impl<'a> vstd::std_specs::ops::SubSpecImpl<&'a AddressSet> for AddressSet {
    open spec fn obeys_sub_spec() -> bool {
        true
    }

    open spec fn sub_req(self, other: &'a AddressSet) -> bool {
        true
    }

    closed spec fn sub_spec(self, other: &'a AddressSet) -> AddressSet {
        AddressSet(self.0 & !other.0)
    }
}

impl core::ops::SubAssign<AddressSet> for AddressSet {
    fn sub_assign(&mut self, other: AddressSet)
        ensures
            final(self)@ == old(self)@.difference(other@),
    {
        proof {
            lemma_members_difference(self.0, other.0);
        }
        self.0 = self.0 & !other.0;
    }
}

impl<'a> core::ops::SubAssign<&'a AddressSet> for AddressSet {
    fn sub_assign(&mut self, other: &'a AddressSet)
        ensures
            final(self)@ == old(self)@.difference(other@),
    {
        proof {
            lemma_members_difference(self.0, other.0);
        }
        self.0 = self.0 & !other.0;
    }
}

} // verus!
