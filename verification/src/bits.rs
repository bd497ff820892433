use vstd::prelude::*;

verus! {

// Byte-level views of a 16-bit word, used by the register pairs, the stack
// operations and the little-endian immediate reads.

pub open spec fn high8(v: u16) -> u8 {
    (v / 256) as u8
}

pub open spec fn low8(v: u16) -> u8 {
    (v % 256) as u8
}

pub open spec fn word(hi: u8, lo: u8) -> u16 {
    (hi * 256 + lo) as u16
}

proof fn lemma_u16_bytes(v: u16, hi: u8, lo: u8)
    by (bit_vector)
    ensures
        v >> 8 == v / 256,
        v / 256 < 256,
        v & 0xFF == v % 256,
        ((hi as u16) << 8) | (lo as u16) == hi * 256 + lo,
        (v & 0xF0) as u8 == (v as u8) & 0xF0,
        v as u8 == v % 256,
{
}

/// Splits a word into its high byte.
#[inline]
pub fn hi_byte(v: u16) -> (r: u8)
    ensures
        r == high8(v),
{
    proof {
        lemma_u16_bytes(v, 0, 0);
    }
    (v >> 8) as u8
}

/// Splits a word into its low byte.
#[inline]
pub fn lo_byte(v: u16) -> (r: u8)
    ensures
        r == low8(v),
{
    proof {
        lemma_u16_bytes(v, 0, 0);
    }
    (v & 0xFF) as u8
}

/// Joins two bytes into a word, high byte first.
#[inline]
pub fn make_word(hi: u8, lo: u8) -> (r: u16)
    ensures
        r == word(hi, lo),
{
    proof {
        lemma_u16_bytes(0, hi, lo);
    }
    ((hi as u16) << 8) | (lo as u16)
}

/// The low byte of a word with its own low nibble cleared, as stored into
/// the flag register by 16-bit loads of the AF pair.
#[inline]
pub fn lo_byte_high_nibble(v: u16) -> (r: u8)
    ensures
        r == low8(v) & 0xF0,
{
    proof {
        lemma_u16_bytes(v, 0, 0);
    }
    (v & 0xF0) as u8
}

/// The signed reading of a byte, as fetched for relative jumps and
/// signed stack arithmetic.
pub open spec fn as_signed8(b: u8) -> i8 {
    if b < 0x80 {
        b as i8
    } else {
        (b - 256) as i8
    }
}

/// Reinterprets a byte as a signed offset.
#[inline]
pub fn to_signed8(b: u8) -> (r: i8)
    ensures
        r == as_signed8(b),
{
    if b < 0x80 {
        b as i8
    } else {
        ((b as i16) - 256) as i8
    }
}

/// The two's-complement 16-bit image of a signed byte.
pub open spec fn sext16(e: i8) -> u16 {
    if e >= 0 {
        e as u16
    } else {
        (e + 0x10000) as u16
    }
}

/// Widens a signed byte to the 16-bit word with the same two's-complement
/// bits.
#[inline]
pub fn signed16(e: i8) -> (r: u16)
    ensures
        r == sext16(e),
{
    if e >= 0 {
        e as u16
    } else {
        ((e as i32) + 0x10000) as u16
    }
}

} // verus!
