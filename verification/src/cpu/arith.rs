//! The arithmetic and logic instructions.
use vstd::prelude::*;
use crate::cpu::alu::{
    add_displacement, add_words, adjust, compute, decrement, increment, lemma_rotate_left, rotate,
};
use crate::cpu::operand::{Alu, Rot, Rp, R};
use crate::cpu::Cpu;
use crate::fault::{settled, Fault};

verus! {

impl Cpu {
    /// Carries out the operation `op` on the accumulator and `right`.
    pub fn apply(&mut self, op: Alu, right: u8)
        ensures
            final(self)@ == old(self)@.apply(op, right),
    {
        let (result, flags) = compute(op, self.registers.a, right, self.flag_registers);
        self.registers.a = result;
        self.flag_registers = flags;
    }

    /// Carries out the operation `op` on the accumulator and the operand `r`.
    pub fn alu_r(&mut self, op: Alu, r: R) -> (done: Result<(), Fault>)
        ensures
            settled(old(self)@, final(self)@, done, old(self)@.alu_r(op, r)),
    {
        let right = self.read_r(r)?;
        self.apply(op, right);
        Ok(())
    }

    /// Carries out the operation `op` on the accumulator and the byte that
    /// follows the opcode.
    pub fn alu_n(&mut self, op: Alu) -> (done: Result<(), Fault>)
        ensures
            settled(old(self)@, final(self)@, done, old(self)@.alu_n(op)),
    {
        let right = self.get_n()?;
        self.apply(op, right);
        Ok(())
    }

    /// Adds the pair `rp` to HL.
    pub fn add_hl_rp(&mut self, rp: Rp) -> (r: Result<(), Fault>)
        ensures
            settled(old(self)@, final(self)@, r, old(self)@.add_hl_rp(rp)),
    {
        let (sum, flags) = add_words(
            self.registers.hl,
            self.registers.get_rp(rp),
            self.flag_registers,
        );
        self.registers.hl = sum;
        self.flag_registers = flags;
        Ok(())
    }

    /// Adds one to the pair `rp`.
    pub fn inc_rp(&mut self, rp: Rp) -> (r: Result<(), Fault>)
        ensures
            settled(old(self)@, final(self)@, r, old(self)@.inc_rp(rp)),
    {
        let val = self.registers.get_rp(rp).wrapping_add(1);
        self.registers.set_rp(rp, val);
        Ok(())
    }

    /// Takes one from the pair `rp`.
    pub fn dec_rp(&mut self, rp: Rp) -> (r: Result<(), Fault>)
        ensures
            settled(old(self)@, final(self)@, r, old(self)@.dec_rp(rp)),
    {
        let val = self.registers.get_rp(rp).wrapping_sub(1);
        self.registers.set_rp(rp, val);
        Ok(())
    }

    /// Adds one to the operand `r`.
    pub fn inc_r(&mut self, r: R) -> (done: Result<(), Fault>)
        ensures
            settled(old(self)@, final(self)@, done, old(self)@.inc_r(r)),
    {
        let val = self.read_r(r)?;
        let (result, flags) = increment(val, self.flag_registers);
        self.write_r(r, result)?;
        self.flag_registers = flags;
        Ok(())
    }

    /// Takes one from the operand `r`.
    pub fn dec_r(&mut self, r: R) -> (done: Result<(), Fault>)
        ensures
            settled(old(self)@, final(self)@, done, old(self)@.dec_r(r)),
    {
        let val = self.read_r(r)?;
        let (result, flags) = decrement(val, self.flag_registers);
        self.write_r(r, result)?;
        self.flag_registers = flags;
        Ok(())
    }

    /// Rotates the accumulator as `op` says, and clears the zero, subtract
    /// and half-carry flags.
    pub fn rotate_a(&mut self, op: Rot)
        ensures
            final(self)@ == old(self)@.rotate_a(op),
    {
        let (result, carry) = rotate(op, self.registers.a, self.flag_registers.c);
        self.registers.a = result;
        self.flag_registers.set_z(false);
        self.flag_registers.set_n(false);
        self.flag_registers.set_h(false);
        self.flag_registers.set_c(carry);
    }

    /// Rotates the accumulator to the left.
    pub fn rlca(&mut self) -> (r: Result<(), Fault>)
        ensures
            settled(old(self)@, final(self)@, r, old(self)@.rlca()),
    {
        self.rotate_a(Rot::Rlc);
        Ok(())
    }

    /// Rotates the accumulator to the right.
    pub fn rrca(&mut self) -> (r: Result<(), Fault>)
        ensures
            settled(old(self)@, final(self)@, r, old(self)@.rrca()),
    {
        self.rotate_a(Rot::Rrc);
        Ok(())
    }

    /// Rotates the accumulator to the left through the carry flag.
    pub fn rla(&mut self) -> (r: Result<(), Fault>)
        ensures
            settled(old(self)@, final(self)@, r, old(self)@.rla()),
    {
        self.rotate_a(Rot::Rl);
        Ok(())
    }

    /// Rotates the accumulator to the right through the carry flag.
    pub fn rra(&mut self) -> (r: Result<(), Fault>)
        ensures
            settled(old(self)@, final(self)@, r, old(self)@.rra()),
    {
        self.rotate_a(Rot::Rr);
        Ok(())
    }

    /// Adjusts the accumulator to two decimal digits.
    pub fn daa(&mut self) -> (r: Result<(), Fault>)
        ensures
            settled(old(self)@, final(self)@, r, old(self)@.daa()),
    {
        let (result, flags) = adjust(self.registers.a, self.flag_registers);
        self.registers.a = result;
        self.flag_registers = flags;
        Ok(())
    }

    /// Complements the accumulator.
    pub fn cpl(&mut self) -> (r: Result<(), Fault>)
        ensures
            settled(old(self)@, final(self)@, r, old(self)@.cpl()),
    {
        let val = self.registers.a;
        proof {
            lemma_rotate_left(val);
        }
        let result = !val;
        self.registers.a = result;
        self.flag_registers.set_n(true);
        self.flag_registers.set_h(true);
        Ok(())
    }

    /// Sets the carry flag.
    pub fn scf(&mut self) -> (r: Result<(), Fault>)
        ensures
            settled(old(self)@, final(self)@, r, old(self)@.scf()),
    {
        self.flag_registers.set_n(false);
        self.flag_registers.set_h(false);
        self.flag_registers.set_c(true);
        Ok(())
    }

    /// Inverts the carry flag.
    pub fn ccf(&mut self) -> (r: Result<(), Fault>)
        ensures
            settled(old(self)@, final(self)@, r, old(self)@.ccf()),
    {
        let c = self.flag_registers.c;
        let result = !c;
        self.flag_registers.set_n(false);
        self.flag_registers.set_h(false);
        self.flag_registers.set_c(result);
        Ok(())
    }

    /// Adds the operand `r` to the accumulator.
    pub fn add_a_r(&mut self, r: R) -> (done: Result<(), Fault>)
        ensures
            settled(old(self)@, final(self)@, done, old(self)@.alu_r(Alu::AddA, r)),
    {
        self.alu_r(Alu::AddA, r)
    }

    /// Adds the operand `r` and the carry flag to the accumulator.
    pub fn adc_a_r(&mut self, r: R) -> (done: Result<(), Fault>)
        ensures
            settled(old(self)@, final(self)@, done, old(self)@.alu_r(Alu::AdcA, r)),
    {
        self.alu_r(Alu::AdcA, r)
    }

    /// Takes the operand `r` from the accumulator.
    pub fn sub_r(&mut self, r: R) -> (done: Result<(), Fault>)
        ensures
            settled(old(self)@, final(self)@, done, old(self)@.alu_r(Alu::Sub, r)),
    {
        self.alu_r(Alu::Sub, r)
    }

    /// Takes the operand `r` and the carry flag from the accumulator.
    pub fn sbc_a_r(&mut self, r: R) -> (done: Result<(), Fault>)
        ensures
            settled(old(self)@, final(self)@, done, old(self)@.alu_r(Alu::SbcA, r)),
    {
        self.alu_r(Alu::SbcA, r)
    }

    /// Combines the accumulator with the operand `r` by exclusive or.
    pub fn xor_a_r(&mut self, r: R) -> (done: Result<(), Fault>)
        ensures
            settled(old(self)@, final(self)@, done, old(self)@.alu_r(Alu::Xor, r)),
    {
        self.alu_r(Alu::Xor, r)
    }

    /// Combines the accumulator with the operand `r` by and.
    pub fn and_a_r(&mut self, r: R) -> (done: Result<(), Fault>)
        ensures
            settled(old(self)@, final(self)@, done, old(self)@.alu_r(Alu::And, r)),
    {
        self.alu_r(Alu::And, r)
    }

    /// Combines the accumulator with the operand `r` by or.
    pub fn or_a_r(&mut self, r: R) -> (done: Result<(), Fault>)
        ensures
            settled(old(self)@, final(self)@, done, old(self)@.alu_r(Alu::Or, r)),
    {
        self.alu_r(Alu::Or, r)
    }

    /// Compares the accumulator with the operand `r`: the flags are those of
    /// the subtraction, and the accumulator stays.
    pub fn cp_a_r(&mut self, r: R) -> (done: Result<(), Fault>)
        ensures
            settled(old(self)@, final(self)@, done, old(self)@.alu_r(Alu::Cp, r)),
    {
        self.alu_r(Alu::Cp, r)
    }

    /// Adds the byte that follows the opcode to the accumulator.
    pub fn add_a_n(&mut self) -> (r: Result<(), Fault>)
        ensures
            settled(old(self)@, final(self)@, r, old(self)@.alu_n(Alu::AddA)),
    {
        self.alu_n(Alu::AddA)
    }

    /// Adds the byte that follows the opcode and the carry flag to the
    /// accumulator.
    pub fn adc_a_n(&mut self) -> (r: Result<(), Fault>)
        ensures
            settled(old(self)@, final(self)@, r, old(self)@.alu_n(Alu::AdcA)),
    {
        self.alu_n(Alu::AdcA)
    }

    /// Takes the byte that follows the opcode from the accumulator.
    pub fn sub_n(&mut self) -> (r: Result<(), Fault>)
        ensures
            settled(old(self)@, final(self)@, r, old(self)@.alu_n(Alu::Sub)),
    {
        self.alu_n(Alu::Sub)
    }

    /// Takes the byte that follows the opcode and the carry flag from the
    /// accumulator.
    pub fn sbc_a_n(&mut self) -> (r: Result<(), Fault>)
        ensures
            settled(old(self)@, final(self)@, r, old(self)@.alu_n(Alu::SbcA)),
    {
        self.alu_n(Alu::SbcA)
    }

    /// Combines the accumulator with the byte that follows the opcode by
    /// and.
    pub fn and_a_n(&mut self) -> (r: Result<(), Fault>)
        ensures
            settled(old(self)@, final(self)@, r, old(self)@.alu_n(Alu::And)),
    {
        self.alu_n(Alu::And)
    }

    /// Combines the accumulator with the byte that follows the opcode by
    /// exclusive or.
    pub fn xor_a_n(&mut self) -> (r: Result<(), Fault>)
        ensures
            settled(old(self)@, final(self)@, r, old(self)@.alu_n(Alu::Xor)),
    {
        self.alu_n(Alu::Xor)
    }

    /// Combines the accumulator with the byte that follows the opcode by or.
    pub fn or_a_n(&mut self) -> (r: Result<(), Fault>)
        ensures
            settled(old(self)@, final(self)@, r, old(self)@.alu_n(Alu::Or)),
    {
        self.alu_n(Alu::Or)
    }

    /// Compares the accumulator with the byte that follows the opcode.
    pub fn cp_a_n(&mut self) -> (r: Result<(), Fault>)
        ensures
            settled(old(self)@, final(self)@, r, old(self)@.alu_n(Alu::Cp)),
    {
        self.alu_n(Alu::Cp)
    }

    /// Adds the signed displacement that follows the opcode to the stack
    /// pointer.
    pub fn add_sp_d(&mut self) -> (r: Result<(), Fault>)
        ensures
            settled(old(self)@, final(self)@, r, old(self)@.add_sp_d()),
    {
        let left = self.registers.sp;
        let d = self.get_n()?;
        let (result, flags) = add_displacement(left, d);
        self.registers.sp = result;
        self.flag_registers = flags;
        Ok(())
    }
}

} // verus!
