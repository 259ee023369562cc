//! Eight- and sixteen-bit arithmetic as the processor sees it: every sum wraps,
//! and a sixteen-bit word is two bytes, low byte first.

use vstd::prelude::*;

verus! {

/// `n` reduced to eight bits.
pub open spec fn wrap8(n: int) -> u8 {
    (n % 0x100) as u8
}

/// `n` reduced to sixteen bits.
pub open spec fn wrap16(n: int) -> u16 {
    (n % 0x10000) as u16
}

/// The word whose low byte is `lo` and whose high byte is `hi`.
pub open spec fn word(lo: u8, hi: u8) -> u16 {
    (lo + 0x100 * hi) as u16
}

/// The low byte of `w`.
pub open spec fn low_byte(w: u16) -> u8 {
    (w % 0x100) as u8
}

/// The high byte of `w`.
pub open spec fn high_byte(w: u16) -> u8 {
    (w / 0x100) as u8
}

/// A branch displacement read as a signed number: `-128 ..= 127`.
pub open spec fn signed(d: u8) -> int {
    if d < 0x80 {
        d as int
    } else {
        d - 0x100
    }
}

/// Bit 7 of `b`, the sign bit, is set.
pub open spec fn bit7(b: u8) -> bool {
    b & 0x80 != 0
}

/// Bit 6 of `b` is set.
pub open spec fn bit6(b: u8) -> bool {
    b & 0x40 != 0
}

/// Joins two bytes into a word, low byte first.
pub fn join(lo: u8, hi: u8) -> (w: u16)
    ensures
        w == word(lo, hi),
{
    let l: u16 = lo as u16;
    let h: u16 = hi as u16;
    assert((h << 8) | l == l + 0x100 * h) by (bit_vector)
        requires
            l < 0x100,
            h < 0x100,
    ;
    (h << 8) | l
}

/// The low byte of a word.
pub fn low(w: u16) -> (b: u8)
    ensures
        b == low_byte(w),
{
    let l: u16 = w & 0xFF;
    assert(l == w % 0x100) by (bit_vector)
        requires
            l == w & 0xFF,
    ;
    l as u8
}

/// The high byte of a word.
pub fn high(w: u16) -> (b: u8)
    ensures
        b == high_byte(w),
{
    let h: u16 = w >> 8;
    assert(h == w / 0x100) by (bit_vector)
        requires
            h == w >> 8,
    ;
    h as u8
}

/// The address `base + d` for a signed displacement byte `d`, wrapping at
/// sixteen bits.
pub fn offset(base: u16, d: u8) -> (addr: u16)
    ensures
        addr == wrap16(base + signed(d)),
{
    if d < 0x80 {
        base.wrapping_add(d as u16)
    } else {
        base.wrapping_sub(0x100 - d as u16)
    }
}

/// What shifting a byte by one bit is in arithmetic, with and without a bit
/// moved into the place that the shift frees.
pub proof fn lemma_byte_shifts(v: u8)
    ensures
        (v << 1) as int == (2 * v) % 0x100,
        (v >> 1) as int == v / 2,
        ((v << 1) | 1u8) as int == (2 * v + 1) % 0x100,
        ((v >> 1) | 0x80u8) as int == v / 2 + 0x80,
{
    assert((v << 1) as int == (2 * v) % 0x100) by (bit_vector);
    assert((v >> 1) as int == v / 2) by (bit_vector);
    assert(((v << 1) | 1u8) as int == (2 * v + 1) % 0x100) by (bit_vector);
    assert(((v >> 1) | 0x80u8) as int == v / 2 + 0x80) by (bit_vector);
}

/// What the tests of single bits of a byte are in arithmetic.
pub proof fn lemma_byte_tests(v: u8)
    by (bit_vector)
    ensures
        v >> 7 == 1 <==> v >= 0x80,
        v & 1 == 1 <==> v % 2 == 1,
        v & 0x80 != 0 <==> v >= 0x80,
        v & 0x40 != 0 <==> v % 0x80 >= 0x40,
{
}

/// A byte's complement is `-b - 1` in eight bits, and in the test for a wrong
/// sign it stands for the byte with the other sign.
pub proof fn lemma_complement(a: u8, b: u8, r: u8)
    by (bit_vector)
    ensures
        !b == 0xFF - b,
        (!b ^ r) & (r ^ a) & 0x80 != 0 <==> (a ^ b) & (a ^ r) & 0x80 != 0,
{
}

} // verus!
