//! Facts about bit operations on bytes, shared by the modules that take
//! frames and registers apart.
use vstd::prelude::*;

verus! {

/// Nibbles and shifts of a byte stay within their ranges.
pub proof fn lemma_u8_parts(x: u8)
    by (bit_vector)
    ensures
        x >> 4u32 <= 15,
        x & 0x0f <= 15,
        x & 0x70 <= 0x70,
        x >> 1u32 <= 127,
        x & 1 <= 1,
        (x & 1 == 1) == (x % 2 == 1),
        x >> 1u32 == x / 2,
        x >> 4u32 == x / 16,
        x & 0x0f == x % 16,
        x & 0x7f == x % 128,
        x >> 7u32 == x / 128,
{
}

/// Bit `a` of a 64-bit word is set.
pub open spec fn bit_set(x: u64, a: u64) -> bool {
    x & (1u64 << a) != 0
}

/// Bits of a union, an intersection with a complement, and of zero.
pub proof fn lemma_u64_bit_ops(x: u64, y: u64, a: u64)
    by (bit_vector)
    requires
        a < 64,
    ensures
        ((x | y) & (1u64 << a) != 0) == ((x & (1u64 << a) != 0) || (y & (1u64 << a) != 0)),
        ((x & !y) & (1u64 << a) != 0) == ((x & (1u64 << a) != 0) && (y & (1u64 << a) == 0)),
        (0u64 & (1u64 << a)) == 0,
        x & 0u64 == 0,
        x & 0xffff_ffff_ffff_ffffu64 == x,
{
}

/// A single bit `1 << c` has bit `a` set exactly when `a == c`.
pub proof fn lemma_u64_single_bit(a: u64, c: u64)
    by (bit_vector)
    requires
        a < 64,
        c < 64,
    ensures
        ((1u64 << c) & (1u64 << a) != 0) == (a == c),
{
}

/// The mask that a range `s..=e` of bit positions is built from: it does
/// not overflow, and it has exactly the bits `s` to `e` set.
pub proof fn lemma_u64_range_mask(s: u64, e: u64, a: u64)
    by (bit_vector)
    requires
        s <= e,
        e < 64,
        a < 64,
    ensures
        (1u64 << s) >= 1,
        (1u64 << e) <= 0x8000_0000_0000_0000u64,
        ((!(((1u64 << s) - 1u64) as u64) & ((((1u64 << e) - 1u64) + (1u64 << e)) as u64)) & (1u64 << a) != 0)
            == (s <= a && a <= e),
{
}

/// Masks of the low `n` bits, built one bit at a time.
pub open spec fn low_mask(n: nat) -> u64
    decreases n,
{
    if n == 0 {
        0
    } else {
        low_mask((n - 1) as nat) | (1u64 << ((n - 1) as u64))
    }
}

proof fn lemma_low_mask_step(k: u64, k1: u64)
    by (bit_vector)
    requires
        k < 63,
        k1 == k + 1,
    ensures
        (((1u64 << k) - 1u64) as u64) | (1u64 << k) == (((1u64 << k1) - 1u64) as u64),
{
}

proof fn lemma_low_mask_top()
    by (bit_vector)
    ensures
        (((1u64 << 63u64) - 1u64) as u64) | (1u64 << 63u64) == 0xffff_ffff_ffff_ffffu64,
{
}

proof fn lemma_low_mask_value(n: nat)
    requires
        n < 64,
    ensures
        low_mask(n) == (((1u64 << (n as u64)) - 1u64) as u64),
    decreases n,
{
    if n == 0 {
        assert((1u64 << 0u64) - 1u64 == 0u64) by (bit_vector);
    } else {
        lemma_low_mask_value((n - 1) as nat);
        lemma_low_mask_step((n - 1) as u64, n as u64);
    }
}

/// All 64 bits.
pub proof fn lemma_low_mask_full()
    ensures
        low_mask(64) == 0xffff_ffff_ffff_ffffu64,
{
    lemma_low_mask_value(63);
    lemma_low_mask_top();
}

/// Words that differ under `m | (1 << k)` differ under `m` or at bit `k`.
proof fn lemma_u64_split_mask(x: u64, y: u64, m: u64, k: u64)
    by (bit_vector)
    requires
        k < 64,
        x & (m | (1u64 << k)) != y & (m | (1u64 << k)),
    ensures
        x & m != y & m || ((x & (1u64 << k)) != 0) != ((y & (1u64 << k)) != 0),
{
}

/// Words `x` and `y` differ at bit `a`.
pub open spec fn differ_at(x: u64, y: u64, a: u64) -> bool {
    bit_set(x, a) != bit_set(y, a)
}

proof fn lemma_differ_below(x: u64, y: u64, n: nat)
    requires
        n <= 64,
        x & low_mask(n) != y & low_mask(n),
    ensures
        exists|a: u64| a < n && #[trigger] differ_at(x, y, a),
    decreases n,
{
    if n == 0 {
        lemma_u64_bit_ops(x, y, 0);
        lemma_u64_bit_ops(y, x, 0);
    } else {
        let k = (n - 1) as u64;
        lemma_u64_split_mask(x, y, low_mask((n - 1) as nat), k);
        if x & low_mask((n - 1) as nat) != y & low_mask((n - 1) as nat) {
            lemma_differ_below(x, y, (n - 1) as nat);
        } else {
            assert(differ_at(x, y, k));
        }
    }
}

/// Two different words differ at some bit.
pub proof fn lemma_u64_differ(x: u64, y: u64)
    requires
        x != y,
    ensures
        exists|a: u64| a < 64 && #[trigger] differ_at(x, y, a),
{
    lemma_low_mask_full();
    lemma_u64_bit_ops(x, y, 0);
    lemma_u64_bit_ops(y, x, 0);
    lemma_differ_below(x, y, 64);
}

/// Masks of `n` bits (fewer than 8) at position `start` in a byte.
pub proof fn lemma_u8_mask(n: u8, start: u8)
    by (bit_vector)
    requires
        n < 8,
        start < 8,
    ensures
        (1u8 << n) >= 1,
{
}

/// Setting or clearing bit `k` of a byte makes it read as set or clear.
pub proof fn lemma_u8_set_bit(x: u8, k: u8)
    by (bit_vector)
    requires
        k < 8,
    ensures
        (x | (1u8 << k)) & (1u8 << k) != 0,
        (x & !(1u8 << k)) & (1u8 << k) == 0,
        1u8 << 0u8 == 0x01u8,
        1u8 << 1u8 == 0x02u8,
        1u8 << 5u8 == 0x20u8,
        1u8 << 7u8 == 0x80u8,
{
}

/// An arithmetic shift right by 22 of a 64-bit word rounds down: it is the
/// quotient `q` with `q * 2^22 <= x < (q + 1) * 2^22`.
pub proof fn lemma_i64_shr22(x: i64)
    by (bit_vector)
    ensures
        (x >> 22u32) * 0x400000 <= x,
        x < (x >> 22u32) * 0x400000 + 0x400000,
{
}

} // verus!
