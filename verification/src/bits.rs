//! Bit-level building blocks of the register file: flag bytes, 16-bit
//! register pairs and the nibble masks that the ALU inspects.
use vstd::prelude::*;

verus! {

/// Bit of the zero flag (Z) in the flag register.
pub const FLAG_Z: u8 = 0x80;
/// Bit of the subtract flag (N) in the flag register.
pub const FLAG_N: u8 = 0x40;
/// Bit of the half-carry flag (H) in the flag register.
pub const FLAG_H: u8 = 0x20;
/// Bit of the carry flag (C) in the flag register.
pub const FLAG_C: u8 = 0x10;

/// The flag byte with the given Z, N, H and C flags and a clear low nibble.
pub open spec fn flags(z: bool, n: bool, h: bool, c: bool) -> u8 {
    ((if z { 0x80int } else { 0 }) + (if n { 0x40int } else { 0 }) + (if h { 0x20int } else { 0 })
        + (if c { 0x10int } else { 0 })) as u8
}

/// Whether the zero flag is set in the flag byte `f`.
pub open spec fn zero_flag(f: u8) -> bool {
    f & 0x80 != 0
}

/// Whether the subtract flag is set in the flag byte `f`.
pub open spec fn subtract_flag(f: u8) -> bool {
    f & 0x40 != 0
}

/// Whether the half-carry flag is set in the flag byte `f`.
pub open spec fn half_carry_flag(f: u8) -> bool {
    f & 0x20 != 0
}

/// Whether the carry flag is set in the flag byte `f`.
pub open spec fn carry_flag(f: u8) -> bool {
    f & 0x10 != 0
}

/// The 16-bit value whose high byte is `hi` and low byte is `lo`.
pub open spec fn word(hi: u8, lo: u8) -> u16 {
    (hi as int * 256 + lo as int) as u16
}

/// The high byte of a 16-bit value.
pub open spec fn high_byte(v: u16) -> u8 {
    (v as int / 256) as u8
}

/// The low byte of a 16-bit value.
pub open spec fn low_byte(v: u16) -> u8 {
    (v as int % 256) as u8
}

/// `v + d` on 16 bits, wrapping around.
pub open spec fn add16(v: u16, d: int) -> u16 {
    ((v as int + d) % 0x10000) as u16
}

/// `v + d` on 8 bits, wrapping around.
pub open spec fn add8(v: u8, d: int) -> u8 {
    ((v as int + d) % 0x100) as u8
}

/// The two's-complement value of a byte read as a signed offset.
pub open spec fn signed8(b: u8) -> int {
    if b < 0x80 { b as int } else { b as int - 0x100 }
}

/// Decoding each flag of a composed flag byte gives back the flag.
pub proof fn lemma_flags_decode(z: bool, n: bool, h: bool, c: bool)
    ensures
        zero_flag(flags(z, n, h, c)) == z,
        subtract_flag(flags(z, n, h, c)) == n,
        half_carry_flag(flags(z, n, h, c)) == h,
        carry_flag(flags(z, n, h, c)) == c,
        flags(z, n, h, c) % 16 == 0,
{
    let f = flags(z, n, h, c);
    let zi: u8 = if z { 1 } else { 0 };
    let ni: u8 = if n { 1 } else { 0 };
    let hi: u8 = if h { 1 } else { 0 };
    let ci: u8 = if c { 1 } else { 0 };
    assert(f == zi * 128 + ni * 64 + hi * 32 + ci * 16);
    lemma_flag_bits(zi, ni, hi, ci);
}

proof fn lemma_flag_bits(zi: u8, ni: u8, hi: u8, ci: u8)
    by (bit_vector)
    requires
        zi <= 1,
        ni <= 1,
        hi <= 1,
        ci <= 1,
    ensures
        ((zi * 128 + ni * 64 + hi * 32 + ci * 16) as u8) & 0x80 != 0 <==> zi == 1,
        ((zi * 128 + ni * 64 + hi * 32 + ci * 16) as u8) & 0x40 != 0 <==> ni == 1,
        ((zi * 128 + ni * 64 + hi * 32 + ci * 16) as u8) & 0x20 != 0 <==> hi == 1,
        ((zi * 128 + ni * 64 + hi * 32 + ci * 16) as u8) & 0x10 != 0 <==> ci == 1,
        ((zi * 128 + ni * 64 + hi * 32 + ci * 16) as u8) % 16 == 0,
{
}

/// Builds a flag byte from its four flags.
pub fn make_flags(z: bool, n: bool, h: bool, c: bool) -> (f: u8)
    ensures
        f == flags(z, n, h, c),
{
    let mut f: u8 = 0;
    if z {
        f = f + FLAG_Z;
    }
    if n {
        f = f + FLAG_N;
    }
    if h {
        f = f + FLAG_H;
    }
    if c {
        f = f + FLAG_C;
    }
    f
}

/// Joins a high and a low byte into a 16-bit value.
pub fn join16(hi: u8, lo: u8) -> (v: u16)
    ensures
        v == word(hi, lo),
        high_byte(v) == hi,
        low_byte(v) == lo,
{
    let v = (lo as u16) | ((hi as u16) << 8);
    assert(v == hi * 256 + lo) by (bit_vector)
        requires
            v == (lo as u16) | ((hi as u16) << 8),
    ;
    v
}

/// Splits a 16-bit value into its high and low bytes.
pub fn split16(v: u16) -> (r: (u8, u8))
    ensures
        r.0 == high_byte(v),
        r.1 == low_byte(v),
        word(r.0, r.1) == v,
{
    let hi = ((v & 0xFF00) >> 8) as u8;
    let lo = (v & 0x00FF) as u8;
    assert(hi == v / 256 && lo == v % 256) by (bit_vector)
        requires
            hi == ((v & 0xFF00) >> 8) as u8,
            lo == (v & 0x00FF) as u8,
    ;
    (hi, lo)
}


/// A word is made of its two bytes, and gives them back.
pub proof fn lemma_word_bytes(hi: u8, lo: u8)
    ensures
        high_byte(word(hi, lo)) == hi,
        low_byte(word(hi, lo)) == lo,
{
}

/// Splitting a word into its bytes and joining them again gives it back.
pub proof fn lemma_bytes_word(v: u16)
    ensures
        word(high_byte(v), low_byte(v)) == v,
{
}

/// Moves `v` by the signed offset `e8`, wrapping around on 16 bits.
pub fn offset16(v: u16, e8: u8) -> (r: u16)
    ensures
        r == add16(v, signed8(e8)),
{
    if e8 < 0x80 {
        v.wrapping_add(e8 as u16)
    } else {
        v.wrapping_sub(0x100 - e8 as u16)
    }
}


/// The masks that the ALU applies keep values within their width.
pub proof fn lemma_mask_bounds(x: u8, y: u16)
    by (bit_vector)
    ensures
        x & 0x0F <= 0x0F,
        y & 0x000F <= 0x000F,
        y & 0x00FF <= 0x00FF,
        y & 0x0FFF <= 0x0FFF,
{
}

} // verus!
