//! Fields packed into the bytes of a report: nibbles, single bits, low-order
//! groups of bits and two-byte words.

use vstd::prelude::*;

verus! {

/// The low four bits of `b`.
pub open spec fn low_nibble(b: u8) -> u8 {
    b % 16
}

/// The high four bits of `b`, moved down.
pub open spec fn high_nibble(b: u8) -> u8 {
    b / 16
}

/// Whether bit `k` of `b` is set, bit 0 being the lowest.
pub open spec fn bit(b: u8, k: u8) -> bool {
    (b >> k) & 1 == 1
}

/// The lowest `n` bits of `b` as a number.
pub open spec fn low_bits(b: u8, n: u8) -> u8 {
    b % (1u8 << n)
}

/// The value of a two-byte word from its low and its high byte.
pub open spec fn word(lo: u8, hi: u8) -> u16 {
    (lo + 256 * hi) as u16
}

/// How many of the bits of `b` below bit `k` are set.
pub open spec fn ones_below(b: u8, k: u8) -> nat
    decreases k,
{
    if k == 0 {
        0
    } else {
        ones_below(b, (k - 1) as u8) + if bit(b, (k - 1) as u8) {
            1nat
        } else {
            0nat
        }
    }
}

/// How many of the eight bits of `b` are set.
pub open spec fn ones(b: u8) -> nat {
    ones_below(b, 8)
}

/// Reads the low four bits of `b`.
pub fn get_low_nibble(b: u8) -> (r: u8)
    ensures
        r == low_nibble(b),
        r < 16,
{
    assert(b & 15 == b % 16) by (bit_vector);
    b & 15
}

/// Reads the high four bits of `b`.
pub fn get_high_nibble(b: u8) -> (r: u8)
    ensures
        r == high_nibble(b),
        r < 16,
{
    assert((b >> 4) & 15 == b / 16) by (bit_vector);
    (b >> 4) & 15
}

/// Tests bit `k` of `b`.
pub fn get_bit(b: u8, k: u8) -> (r: bool)
    requires
        k < 8,
    ensures
        r == bit(b, k),
{
    assert(((b >> k) & 1 != 0) == ((b >> k) & 1 == 1)) by (bit_vector);
    (b >> k) & 1 != 0
}

/// Reads the lowest `n` bits of `b`.
pub fn get_low_bits(b: u8, n: u8) -> (r: u8)
    requires
        n < 8,
    ensures
        r == low_bits(b, n),
{
    assert((1u8 << n) >= 1 && b & (((1u8 << n) - 1) as u8) == b % (1u8 << n)) by (bit_vector)
        requires
            n < 8,
    ;
    b & ((1u8 << n) - 1)
}

/// Puts a two-byte word together from its low and its high byte.
pub fn get_word(lo: u8, hi: u8) -> (w: u16)
    ensures
        w == word(lo, hi),
{
    assert(((hi as u16) << 8) | (lo as u16) == lo + 256 * hi) by (bit_vector);
    ((hi as u16) << 8) | (lo as u16)
}

/// Counts the bits of `b` that are set.
pub fn count_ones(b: u8) -> (n: u8)
    ensures
        n == ones(b),
        n <= 8,
{
    let mut n: u8 = 0;
    let mut k: u8 = 0;
    while k < 8
        invariant
            k <= 8,
            n == ones_below(b, k),
            n <= k,
        decreases 8 - k,
    {
        if get_bit(b, k) {
            n = n + 1;
        }
        k = k + 1;
    }
    n
}

} // verus!
