//! The four condition flags.
use vstd::prelude::*;
use crate::cpu::operand::Cc;

verus! {

/// The condition flags: zero, subtract, half-carry and carry.
#[derive(Clone, Copy, Debug, PartialEq, Eq)]
pub struct FlagsRegisters {
    pub z: bool,
    pub n: bool,
    pub h: bool,
    pub c: bool,
}

/// The value of a flag as a bit.
pub open spec fn bit_of(flag: bool) -> int {
    if flag {
        1
    } else {
        0
    }
}

impl FlagsRegisters {
    /// Whether the condition `cc` holds of these flags.
    pub open spec fn holds(self, cc: Cc) -> bool {
        match cc {
            Cc::Nz => !self.z,
            Cc::Z => self.z,
            Cc::Nc => !self.c,
            Cc::C => self.c,
        }
    }

    /// The flags as the low byte of the accumulator pair: carry in bit 4,
    /// half-carry in bit 5, subtract in bit 6, zero in bit 7, and bits 0 to 3
    /// clear.
    pub open spec fn packed(self) -> u8 {
        (128 * bit_of(self.z) + 64 * bit_of(self.n) + 32 * bit_of(self.h) + 16 * bit_of(
            self.c,
        )) as u8
    }

    /// The flags that the byte `f` holds in its bits 4 to 7.
    pub open spec fn unpacked(f: u8) -> FlagsRegisters {
        FlagsRegisters {
            z: (f / 128) % 2 == 1,
            n: (f / 64) % 2 == 1,
            h: (f / 32) % 2 == 1,
            c: (f / 16) % 2 == 1,
        }
    }

    /// All four flags clear.
    pub fn new() -> (flags: FlagsRegisters)
        ensures
            flags == (FlagsRegisters { z: false, n: false, h: false, c: false }),
    {
        FlagsRegisters { z: false, n: false, h: false, c: false }
    }

    /// Whether the condition `cc` holds.
    pub fn get_c(&self, cc: Cc) -> (met: bool)
        ensures
            met == self.holds(cc),
    {
        match cc {
            Cc::Nz => !self.z,
            Cc::Z => self.z,
            Cc::Nc => !self.c,
            Cc::C => self.c,
        }
    }

    /// Sets the zero flag to `val`.
    pub fn set_z(&mut self, val: bool)
        ensures
            *final(self) == (FlagsRegisters { z: val, ..*old(self) }),
    {
        self.z = val;
    }

    /// Sets the subtract flag to `val`.
    pub fn set_n(&mut self, val: bool)
        ensures
            *final(self) == (FlagsRegisters { n: val, ..*old(self) }),
    {
        self.n = val;
    }

    /// Sets the half-carry flag to `val`.
    pub fn set_h(&mut self, val: bool)
        ensures
            *final(self) == (FlagsRegisters { h: val, ..*old(self) }),
    {
        self.h = val;
    }

    /// Sets the carry flag to `val`.
    pub fn set_c(&mut self, val: bool)
        ensures
            *final(self) == (FlagsRegisters { c: val, ..*old(self) }),
    {
        self.c = val;
    }

    /// The flags as the low byte of the accumulator pair.
    pub fn pack(&self) -> (f: u8)
        ensures
            f == self.packed(),
            f % 16 == 0,
            FlagsRegisters::unpacked(f) == *self,
    {
        let z: u8 = if self.z { 0x80 } else { 0 };
        let n: u8 = if self.n { 0x40 } else { 0 };
        let h: u8 = if self.h { 0x20 } else { 0 };
        let c: u8 = if self.c { 0x10 } else { 0 };
        z + n + h + c
    }

    /// The flags that the byte `f` holds in its bits 4 to 7.
    pub fn unpack(f: u8) -> (flags: FlagsRegisters)
        ensures
            flags == FlagsRegisters::unpacked(f),
            flags.packed() == (f / 16) * 16,
    {
        proof {
            lemma_flag_bits(f);
        }
        FlagsRegisters {
            z: f & 0x80 != 0,
            n: f & 0x40 != 0,
            h: f & 0x20 != 0,
            c: f & 0x10 != 0,
        }
    }
}

/// A mask picks the bit that division by its weight brings to the bottom.
pub proof fn lemma_flag_bits(f: u8)
    by (bit_vector)
    ensures
        f & 0x80 != 0 <==> (f / 128) % 2 == 1,
        f & 0x40 != 0 <==> (f / 64) % 2 == 1,
        f & 0x20 != 0 <==> (f / 32) % 2 == 1,
        f & 0x10 != 0 <==> (f / 16) % 2 == 1,
{
}

} // verus!
