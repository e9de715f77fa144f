//! The register file.
use vstd::prelude::*;
use crate::bits::{high_byte, lemma_nibbles, lemma_word_halves, lemma_word_join, low_byte, word};
use crate::cpu::operand::{Rp, Rp2, R};

verus! {

/// The registers: the accumulator, the low byte of the accumulator pair, the
/// pairs BC, DE and HL, the stack pointer and the program counter. Each of
/// the three pairs is also two 8-bit registers: its high byte (B, D, H) and
/// its low byte (C, E, L).
#[derive(Clone, Copy, Debug, PartialEq, Eq)]
pub struct Registers {
    pub a: u8,
    pub f: u8,
    pub bc: u16,
    pub de: u16,
    pub hl: u16,
    pub sp: u16,
    pub pc: u16,
}

impl Registers {
    /// The register B.
    pub open spec fn b(self) -> u8 {
        high_byte(self.bc)
    }

    /// The register C.
    pub open spec fn c(self) -> u8 {
        low_byte(self.bc)
    }

    /// The register D.
    pub open spec fn d(self) -> u8 {
        high_byte(self.de)
    }

    /// The register E.
    pub open spec fn e(self) -> u8 {
        low_byte(self.de)
    }

    /// The register H.
    pub open spec fn h(self) -> u8 {
        high_byte(self.hl)
    }

    /// The register L.
    pub open spec fn l(self) -> u8 {
        low_byte(self.hl)
    }

    /// The value of the operand `r`, unless it is the one in memory.
    pub open spec fn r(self, r: R) -> Option<u8> {
        match r {
            R::B => Some(self.b()),
            R::C => Some(self.c()),
            R::D => Some(self.d()),
            R::E => Some(self.e()),
            R::H => Some(self.h()),
            R::L => Some(self.l()),
            R::Hl => None,
            R::A => Some(self.a),
        }
    }

    /// The registers with `val` in the operand `r`; unchanged if the operand
    /// is the one in memory.
    pub open spec fn with_r(self, r: R, val: u8) -> Registers {
        match r {
            R::B => Registers { bc: word(val, self.c()), ..self },
            R::C => Registers { bc: word(self.b(), val), ..self },
            R::D => Registers { de: word(val, self.e()), ..self },
            R::E => Registers { de: word(self.d(), val), ..self },
            R::H => Registers { hl: word(val, self.l()), ..self },
            R::L => Registers { hl: word(self.h(), val), ..self },
            R::Hl => self,
            R::A => Registers { a: val, ..self },
        }
    }

    /// The value of the pair `rp`.
    pub open spec fn rp(self, rp: Rp) -> u16 {
        match rp {
            Rp::Bc => self.bc,
            Rp::De => self.de,
            Rp::Hl => self.hl,
            Rp::Sp => self.sp,
        }
    }

    /// The registers with `val` in the pair `rp`.
    pub open spec fn with_rp(self, rp: Rp, val: u16) -> Registers {
        match rp {
            Rp::Bc => Registers { bc: val, ..self },
            Rp::De => Registers { de: val, ..self },
            Rp::Hl => Registers { hl: val, ..self },
            Rp::Sp => Registers { sp: val, ..self },
        }
    }

    /// The accumulator pair: the accumulator above the bits 4 to 7 of `f`,
    /// with the bits 0 to 3 clear.
    pub open spec fn packed_af(self) -> u16 {
        word(self.a, ((self.f / 16) * 16) as u8)
    }

    /// The registers after the accumulator pair was set to `val`: the
    /// accumulator has its high byte, and `f` the bits 4 to 7 of its low byte.
    pub open spec fn with_af(self, val: u16) -> Registers {
        Registers { a: high_byte(val), f: ((low_byte(val) / 16) * 16) as u8, ..self }
    }

    /// The value that `get_rp2` reads: the pair `rp2`, where the fourth pair
    /// is the accumulator pair if `high` is set, and the stack pointer if not.
    pub open spec fn rp2(self, rp2: Rp2, high: bool) -> u16 {
        match rp2 {
            Rp2::Bc => self.bc,
            Rp2::De => self.de,
            Rp2::Hl => self.hl,
            Rp2::Af => if high {
                self.packed_af()
            } else {
                self.sp
            },
        }
    }

    /// The registers that `set_r16` leaves: `val` is in the pair `rp2`, where
    /// the fourth pair is the stack pointer if `high` is set, and the
    /// accumulator pair if not.
    pub open spec fn with_r16(self, rp2: Rp2, val: u16, high: bool) -> Registers {
        match rp2 {
            Rp2::Bc => Registers { bc: val, ..self },
            Rp2::De => Registers { de: val, ..self },
            Rp2::Hl => Registers { hl: val, ..self },
            Rp2::Af => if !high {
                self.with_af(val)
            } else {
                Registers { sp: val, ..self }
            },
        }
    }

    /// All registers zero.
    pub fn new() -> (regs: Registers)
        ensures
            regs == (Registers { a: 0, f: 0, bc: 0, de: 0, hl: 0, sp: 0, pc: 0 }),
    {
        Registers { a: 0, f: 0, bc: 0, de: 0, hl: 0, sp: 0x0000, pc: 0x0000 }
    }

    /// Sets the accumulator.
    pub fn set_a(&mut self, val: u8)
        ensures
            *final(self) == (Registers { a: val, ..*old(self) }),
    {
        self.a = val;
    }

    /// Sets the pair BC.
    pub fn set_bc(&mut self, bc: u16)
        ensures
            *final(self) == (Registers { bc, ..*old(self) }),
    {
        self.bc = bc;
    }

    /// Sets the pair DE.
    pub fn set_de(&mut self, de: u16)
        ensures
            *final(self) == (Registers { de, ..*old(self) }),
    {
        self.de = de;
    }

    /// Sets the pair HL.
    pub fn set_hl(&mut self, hl: u16)
        ensures
            *final(self) == (Registers { hl, ..*old(self) }),
    {
        self.hl = hl;
    }

    /// The accumulator.
    pub fn get_a(&self) -> (val: u8)
        ensures
            val == self.a,
    {
        self.a
    }

    /// The value of the operand `r`; `None` for the operand in memory, which
    /// no register holds.
    pub fn get_r(&self, r: R) -> (val: Option<u8>)
        ensures
            val == self.r(r),
    {
        match r {
            R::B => Some(self.get_b()),
            R::C => Some(self.get_c()),
            R::D => Some(self.get_d()),
            R::E => Some(self.get_e()),
            R::H => Some(self.get_h()),
            R::Hl => None,
            R::L => Some(self.get_l()),
            R::A => Some(self.a),
        }
    }

    /// Puts `val` in the operand `r`, and says whether it did: for the
    /// operand in memory nothing is changed.
    pub fn set_r(&mut self, r: R, val: u8) -> (done: bool)
        ensures
            *final(self) == old(self).with_r(r, val),
            done == (r != R::Hl),
    {
        match r {
            R::B => self.set_b(val),
            R::C => self.set_c(val),
            R::D => self.set_d(val),
            R::E => self.set_e(val),
            R::H => self.set_h(val),
            R::Hl => {
                return false;
            },
            R::L => self.set_l(val),
            R::A => self.set_a(val),
        }
        true
    }

    /// The register B: the high byte of BC.
    pub fn get_b(&self) -> (val: u8)
        ensures
            val == self.b(),
    {
        proof {
            lemma_word_halves(self.bc);
        }
        ((self.bc & 0xFF00) >> 8) as u8
    }

    /// The register C: the low byte of BC.
    pub fn get_c(&self) -> (val: u8)
        ensures
            val == self.c(),
    {
        proof {
            lemma_word_halves(self.bc);
        }
        (self.bc & 0x00FF) as u8
    }

    /// The register D: the high byte of DE.
    pub fn get_d(&self) -> (val: u8)
        ensures
            val == self.d(),
    {
        proof {
            lemma_word_halves(self.de);
        }
        ((self.de & 0xFF00) >> 8) as u8
    }

    /// The register E: the low byte of DE.
    pub fn get_e(&self) -> (val: u8)
        ensures
            val == self.e(),
    {
        proof {
            lemma_word_halves(self.de);
        }
        (self.de & 0x00FF) as u8
    }

    /// The register H: the high byte of HL.
    pub fn get_h(&self) -> (val: u8)
        ensures
            val == self.h(),
    {
        proof {
            lemma_word_halves(self.hl);
        }
        ((self.hl & 0xFF00) >> 8) as u8
    }

    /// The register L: the low byte of HL.
    pub fn get_l(&self) -> (val: u8)
        ensures
            val == self.l(),
    {
        proof {
            lemma_word_halves(self.hl);
        }
        (self.hl & 0x00FF) as u8
    }

    /// Sets the register B, and leaves C as it is.
    pub fn set_b(&mut self, val: u8)
        ensures
            *final(self) == old(self).with_r(R::B, val),
            final(self).b() == val,
            final(self).c() == old(self).c(),
    {
        proof {
            lemma_word_join(val, 0, self.bc);
        }
        self.bc = (self.bc & 0x00FF) | ((val as u16) << 8);
    }

    /// Sets the register C, and leaves B as it is.
    pub fn set_c(&mut self, val: u8)
        ensures
            *final(self) == old(self).with_r(R::C, val),
            final(self).c() == val,
            final(self).b() == old(self).b(),
    {
        proof {
            lemma_word_join(0, val, self.bc);
        }
        self.bc = (self.bc & 0xFF00) | (val as u16);
    }

    /// Sets the register D, and leaves E as it is.
    pub fn set_d(&mut self, val: u8)
        ensures
            *final(self) == old(self).with_r(R::D, val),
            final(self).d() == val,
            final(self).e() == old(self).e(),
    {
        proof {
            lemma_word_join(val, 0, self.de);
        }
        self.de = (self.de & 0x00FF) | ((val as u16) << 8);
    }

    /// Sets the register E, and leaves D as it is.
    pub fn set_e(&mut self, val: u8)
        ensures
            *final(self) == old(self).with_r(R::E, val),
            final(self).e() == val,
            final(self).d() == old(self).d(),
    {
        proof {
            lemma_word_join(0, val, self.de);
        }
        self.de = (self.de & 0xFF00) | (val as u16);
    }

    /// Sets the register H, and leaves L as it is.
    pub fn set_h(&mut self, val: u8)
        ensures
            *final(self) == old(self).with_r(R::H, val),
            final(self).h() == val,
            final(self).l() == old(self).l(),
    {
        proof {
            lemma_word_join(val, 0, self.hl);
        }
        self.hl = (self.hl & 0x00FF) | ((val as u16) << 8);
    }

    /// Sets the register L, and leaves H as it is.
    pub fn set_l(&mut self, val: u8)
        ensures
            *final(self) == old(self).with_r(R::L, val),
            final(self).l() == val,
            final(self).h() == old(self).h(),
    {
        proof {
            lemma_word_join(0, val, self.hl);
        }
        self.hl = (self.hl & 0xFF00) | (val as u16);
    }

    /// Sets the accumulator pair: the accumulator takes the high byte of
    /// `val`, and `f` the bits 4 to 7 of its low byte.
    pub fn set_af(&mut self, val: u16)
        ensures
            *final(self) == old(self).with_af(val),
            final(self).f % 16 == 0,
    {
        proof {
            lemma_word_halves(val);
            lemma_nibbles(low_byte(val));
        }
        self.a = (val >> 8) as u8;
        self.f = (val & 0x00FF) as u8 & 0xF0;
    }

    /// The accumulator pair: the accumulator in the high byte, the bits 4 to
    /// 7 of `f` in the low byte, and the bits 0 to 3 clear.
    pub fn af(&self) -> (val: u16)
        ensures
            val == self.packed_af(),
            high_byte(val) == self.a,
            low_byte(val) % 16 == 0,
    {
        let low: u8 = self.f & 0xF0;
        proof {
            lemma_nibbles(self.f);
            lemma_word_join(self.a, low, 0);
        }
        ((self.a as u16) << 8) | (low as u16)
    }

    /// The value of the pair `rp`.
    pub fn get_rp(&self, rp: Rp) -> (val: u16)
        ensures
            val == self.rp(rp),
    {
        match rp {
            Rp::Bc => self.bc,
            Rp::De => self.de,
            Rp::Hl => self.hl,
            Rp::Sp => self.sp,
        }
    }

    /// Sets the pair `rp`.
    pub fn set_rp(&mut self, rp: Rp, val: u16)
        ensures
            *final(self) == old(self).with_rp(rp, val),
    {
        match rp {
            Rp::Bc => self.bc = val,
            Rp::De => self.de = val,
            Rp::Hl => self.hl = val,
            Rp::Sp => self.sp = val,
        }
    }

    /// The value of the pair `rp2`. The fourth pair is the accumulator pair
    /// if `high` is set, and the stack pointer if it is not.
    pub fn get_rp2(&self, rp2: Rp2, high: bool) -> (val: u16)
        ensures
            val == self.rp2(rp2, high),
    {
        match rp2 {
            Rp2::Bc => self.bc,
            Rp2::De => self.de,
            Rp2::Hl => self.hl,
            Rp2::Af => {
                if high {
                    self.af()
                } else {
                    self.sp
                }
            },
        }
    }

    /// Sets the pair `rp2`. The fourth pair is the stack pointer if `high` is
    /// set, and the accumulator pair if it is not.
    pub fn set_r16(&mut self, rp2: Rp2, val: u16, high: bool)
        ensures
            *final(self) == old(self).with_r16(rp2, val, high),
    {
        match rp2 {
            Rp2::Bc => {
                self.bc = val;
            },
            Rp2::De => {
                self.de = val;
            },
            Rp2::Hl => {
                self.hl = val;
            },
            Rp2::Af => {
                if !high {
                    self.set_af(val);
                } else {
                    self.sp = val;
                }
            },
        }
    }
}

/// Writing one half of a pair leaves the other half as it was, and the
/// written half holds what was written.
pub proof fn lemma_halves_independent(pair: u16, val: u8)
    ensures
        low_byte(word(val, low_byte(pair))) == low_byte(pair),
        high_byte(word(val, low_byte(pair))) == val,
        high_byte(word(high_byte(pair), val)) == high_byte(pair),
        low_byte(word(high_byte(pair), val)) == val,
        word(high_byte(pair), low_byte(pair)) == pair,
{
}

} // verus!
