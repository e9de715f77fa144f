//! The prefixed page: rotations and shifts of any operand, and the
//! instructions that test, clear and set single bits.
use vstd::prelude::*;
use crate::cpu::alu::{reset_bit, rotate, set_bit, test_bit};
use crate::cpu::flags::FlagsRegisters;
use crate::cpu::operand::{Rot, R};
use crate::cpu::Cpu;
use crate::fault::{settled, Fault};

verus! {

impl Cpu {
    /// Rotates or shifts the operand `r`, as `op` says.
    pub fn rot(&mut self, op: Rot, r: R) -> (done: Result<(), Fault>)
        ensures
            settled(old(self)@, final(self)@, done, old(self)@.rot(op, r)),
    {
        let val = self.read_r(r)?;
        let (result, carry) = rotate(op, val, self.flag_registers.c);
        self.write_r(r, result)?;
        self.flag_registers = FlagsRegisters { z: result == 0, n: false, h: false, c: carry };
        Ok(())
    }

    /// Tests the bit `k` of the operand `r`.
    pub fn bit(&mut self, k: u8, r: R) -> (done: Result<(), Fault>)
        requires
            k < 8,
        ensures
            settled(old(self)@, final(self)@, done, old(self)@.bit(k, r)),
    {
        let val = self.read_r(r)?;
        let set = test_bit(val, k);
        self.flag_registers = FlagsRegisters { z: !set, n: false, h: true, c: self.flag_registers.c };
        Ok(())
    }

    /// Clears the bit `k` of the operand `r`.
    pub fn res(&mut self, k: u8, r: R) -> (done: Result<(), Fault>)
        requires
            k < 8,
        ensures
            settled(old(self)@, final(self)@, done, old(self)@.res(k, r)),
    {
        let val = self.read_r(r)?;
        self.write_r(r, reset_bit(val, k))
    }

    /// Sets the bit `k` of the operand `r`.
    pub fn set(&mut self, k: u8, r: R) -> (done: Result<(), Fault>)
        requires
            k < 8,
        ensures
            settled(old(self)@, final(self)@, done, old(self)@.set(k, r)),
    {
        let val = self.read_r(r)?;
        self.write_r(r, set_bit(val, k))
    }

    /// Carries out the instruction of the prefixed page that `opcode` stands
    /// for.
    pub fn call_prefixed_operation(&mut self, opcode: u8) -> (done: Result<(), Fault>)
        ensures
            settled(old(self)@, final(self)@, done, old(self)@.execute_prefixed(opcode)),
    {
        let f = Self::decompose(opcode);
        match R::from_u8(f.z) {
            None => Err(Fault::UnknownOpcode),
            Some(r) => match f.x {
                0 => match Rot::from_u8(f.y) {
                    Some(op) => self.rot(op, r),
                    None => Err(Fault::UnknownOpcode),
                },
                1 => self.bit(f.y, r),
                2 => self.res(f.y, r),
                _ => self.set(f.y, r),
            },
        }
    }

    /// The prefix: fetches the opcode that follows it, and carries out the
    /// instruction of the prefixed page that it stands for.
    pub fn prefix(&mut self) -> (done: Result<(), Fault>)
        ensures
            settled(old(self)@, final(self)@, done, old(self)@.prefix()),
    {
        let entry = self.registers.pc;
        let prefixed_opcode = self.get_n()?;
        match self.call_prefixed_operation(prefixed_opcode) {
            Ok(()) => Ok(()),
            Err(fault) => {
                self.registers.pc = entry;
                Err(fault)
            },
        }
    }
}

} // verus!
