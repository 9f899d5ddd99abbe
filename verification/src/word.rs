//! Spec-level arithmetic on 32-bit machine words: wrapping addition and
//! subtraction, two's-complement reinterpretation, and little-endian byte
//! composition. The contracts of the execution handlers are stated over
//! these functions.

use vstd::prelude::*;

verus! {

/// The word that a (possibly out-of-range) integer wraps to, modulo 2^32.
pub open spec fn w32(x: int) -> u32 {
    (x % 0x1_0000_0000) as u32
}

/// The two's-complement signed value of a 32-bit word.
pub open spec fn s32(x: u32) -> int {
    if x >= 0x8000_0000 {
        x - 0x1_0000_0000
    } else {
        x as int
    }
}

/// The little-endian 32-bit word assembled from four bytes.
pub open spec fn le32(b0: u8, b1: u8, b2: u8, b3: u8) -> u32 {
    (b0 + b1 * 0x100 + b2 * 0x1_0000 + b3 * 0x100_0000) as u32
}

/// Byte `i` (little-endian, 0 = least significant) of a 32-bit word.
pub open spec fn wbyte(w: u32, i: int) -> u8 {
    if i == 0 {
        (w % 0x100) as u8
    } else if i == 1 {
        ((w / 0x100) % 0x100) as u8
    } else if i == 2 {
        ((w / 0x1_0000) % 0x100) as u8
    } else {
        ((w / 0x100_0000) % 0x100) as u8
    }
}

/// Exec wrapping addition agrees with `w32` over the exact sum.
pub proof fn lemma_wrapping_add_w32(a: u32, b: u32)
    ensures
        vstd::wrapping::u32_specs::wrapping_add(a, b) == w32(a + b),
{
}

/// Exec wrapping subtraction agrees with `w32` over the exact difference.
pub proof fn lemma_wrapping_sub_w32(a: u32, b: u32)
    ensures
        vstd::wrapping::u32_specs::wrapping_sub(a, b) == w32(a - b),
{
}

/// Absolute value.
pub open spec fn iabs(x: int) -> int {
    if x < 0 {
        -x
    } else {
        x
    }
}

/// Truncated (round-toward-zero) division, as the hardware divides.
pub open spec fn tdiv(x: int, d: int) -> int {
    if (x < 0) != (d < 0) {
        -(iabs(x) / iabs(d))
    } else {
        iabs(x) / iabs(d)
    }
}

/// The remainder that pairs with truncated division: it carries the
/// dividend's sign.
pub open spec fn tmod(x: int, d: int) -> int {
    x - tdiv(x, d) * d
}

/// A byte sign-extended to 32 bits.
pub open spec fn sext8(v: u8) -> u32 {
    if v >= 0x80 {
        (v + 0xFFFFFF00) as u32
    } else {
        v as u32
    }
}

/// A little-endian halfword sign-extended to 32 bits.
pub open spec fn sext16(lo: u8, hi: u8) -> u32 {
    if hi >= 0x80 {
        (lo + hi * 0x100 + 0xFFFF0000) as u32
    } else {
        (lo + hi * 0x100) as u32
    }
}

/// The signed value of a word, as a 64-bit machine integer.
pub fn s32_val(x: u32) -> (r: i64)
    ensures
        r == s32(x),
{
    if x >= 0x80000000 {
        (x as i64) - 0x1_0000_0000
    } else {
        x as i64
    }
}

/// Wraps a 64-bit value already within one word-range of a `u32` back into
/// a word.
pub fn wrap_to_u32(q: i64) -> (r: u32)
    requires
        -0x1_0000_0000 <= q < 0x1_0000_0000,
    ensures
        r == w32(q as int),
{
    if q >= 0 {
        q as u32
    } else {
        (q + 0x1_0000_0000) as u32
    }
}

} // verus!
