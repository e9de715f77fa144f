//! Bytes, words and wrapping arithmetic, stated over the integers, and the
//! facts that tie shifts and masks to them.
use vstd::prelude::*;

verus! {

/// `x` reduced to a byte: its value modulo 256.
pub open spec fn wrap8(x: int) -> u8 {
    (x % 256) as u8
}

/// `x` reduced to a word: its value modulo 65536.
pub open spec fn wrap16(x: int) -> u16 {
    (x % 65536) as u16
}

/// The address after `addr`; the one after 0xFFFF is 0x0000.
pub open spec fn next(addr: u16) -> u16 {
    wrap16(addr + 1)
}

/// The word with the high byte `high` and the low byte `low`.
pub open spec fn word(high: u8, low: u8) -> u16 {
    (high * 256 + low) as u16
}

/// The low byte of `val`: bits 0 to 7.
pub open spec fn low_byte(val: u16) -> u8 {
    (val % 256) as u8
}

/// The high byte of `val`: bits 8 to 15.
pub open spec fn high_byte(val: u16) -> u8 {
    (val / 256) as u8
}

/// The byte `d` read as a signed displacement, from -128 to 127.
pub open spec fn signed(d: u8) -> int {
    if d < 128 {
        d as int
    } else {
        d - 256
    }
}

/// Shifts and masks on a word are division and remainder by 256.
pub proof fn lemma_word_halves(val: u16)
    by (bit_vector)
    ensures
        (val & 0x00FF) as u8 == (val % 256) as u8,
        (val >> 8) as u8 == (val / 256) as u8,
        ((val & 0xFF00) >> 8) as u8 == (val / 256) as u8,
{
}

/// Joining two bytes by shift and or multiplies the high one by 256 and adds
/// the low one; this also holds where the low byte of a word is replaced, or
/// its high byte.
pub proof fn lemma_word_join(high: u8, low: u8, val: u16)
    by (bit_vector)
    ensures
        ((high as u16) << 8) | (low as u16) == (high as u16) * 256 + (low as u16),
        (val & 0x00FF) | ((high as u16) << 8) == (high as u16) * 256 + val % 256,
        (val & 0xFF00) | (low as u16) == (val / 256) * 256 + (low as u16),
{
}

/// The low four bits of a byte are its remainder by 16, and the high four its
/// quotient.
pub proof fn lemma_nibbles(x: u8)
    by (bit_vector)
    ensures
        x & 0x0F == x % 16,
        x & 0xF0 == (x / 16) * 16,
        x >> 4 == x / 16,
{
}

/// A sign-extended byte, added to a word modulo 65536, moves the word by the
/// signed value of the byte.
pub proof fn lemma_sign_extend(d: u8)
    by (bit_vector)
    ensures
        d >= 128 ==> (0xFF00u16 | (d as u16)) == 0xFF00 + d,
{
}

} // verus!
