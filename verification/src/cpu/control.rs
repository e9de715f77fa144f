//! Jumps, calls, returns, the stack, and the instructions that switch the
//! processor's own state.
use vstd::prelude::*;
use crate::bits::lemma_word_halves;
use crate::cpu::alu::displace;
use crate::cpu::flags::FlagsRegisters;
use crate::cpu::operand::{Cc, Rp2};
use crate::cpu::Cpu;
use crate::fault::{settled, Fault};

verus! {

impl Cpu {
    /// No operation.
    pub fn nop(&mut self) -> (r: Result<(), Fault>)
        ensures
            settled(old(self)@, final(self)@, r, old(self)@.nop()),
    {
        Ok(())
    }

    /// Stop: nothing happens yet.
    pub fn stop(&mut self) -> (r: Result<(), Fault>)
        ensures
            settled(old(self)@, final(self)@, r, old(self)@.stop()),
    {
        Ok(())
    }

    /// Halts the processor.
    pub fn halt(&mut self) -> (r: Result<(), Fault>)
        ensures
            settled(old(self)@, final(self)@, r, old(self)@.halt()),
    {
        self.halt = true;
        Ok(())
    }

    /// Disables interrupts.
    pub fn di(&mut self) -> (r: Result<(), Fault>)
        ensures
            settled(old(self)@, final(self)@, r, old(self)@.di()),
    {
        self.ime = false;
        Ok(())
    }

    /// Enables interrupts.
    pub fn ei(&mut self) -> (r: Result<(), Fault>)
        ensures
            settled(old(self)@, final(self)@, r, old(self)@.ei()),
    {
        self.ime = true;
        Ok(())
    }

    /// Jumps by the signed displacement that follows the opcode.
    pub fn jr_d(&mut self) -> (r: Result<(), Fault>)
        ensures
            settled(old(self)@, final(self)@, r, old(self)@.jr_d()),
    {
        let d = self.get_n()?;
        self.registers.pc = displace(self.registers.pc, d);
        Ok(())
    }

    /// Jumps by the signed displacement that follows the opcode if the
    /// condition `cc` holds.
    pub fn jr_cc_d(&mut self, cc: Cc) -> (r: Result<(), Fault>)
        ensures
            settled(old(self)@, final(self)@, r, old(self)@.jr_cc_d(cc)),
    {
        let d = self.get_n()?;
        let val = self.flag_registers.get_c(cc);
        if val {
            self.registers.pc = displace(self.registers.pc, d);
        }
        Ok(())
    }

    /// Jumps to the address in HL.
    pub fn jp_hl(&mut self) -> (r: Result<(), Fault>)
        ensures
            settled(old(self)@, final(self)@, r, old(self)@.jp_hl()),
    {
        self.registers.pc = self.registers.hl;
        Ok(())
    }

    /// Jumps to the address that follows the opcode.
    pub fn jp_nn(&mut self) -> (r: Result<(), Fault>)
        ensures
            settled(old(self)@, final(self)@, r, old(self)@.jp_nn()),
    {
        let addr = self.bus.read_word(self.registers.pc)?;
        self.registers.pc = addr;
        Ok(())
    }

    /// Jumps to the address that follows the opcode if the condition `cc`
    /// holds.
    pub fn jp_cc_nn(&mut self, cc: Cc) -> (r: Result<(), Fault>)
        ensures
            settled(old(self)@, final(self)@, r, old(self)@.jp_cc_nn(cc)),
    {
        let nn = self.get_nn()?;
        let val = self.flag_registers.get_c(cc);
        if val {
            self.registers.pc = nn;
        }
        Ok(())
    }

    /// Returns: pops the program counter.
    pub fn ret(&mut self) -> (r: Result<(), Fault>)
        ensures
            settled(old(self)@, final(self)@, r, old(self)@.ret()),
    {
        let addr = self.bus.read_word(self.registers.sp)?;
        self.registers.sp = self.registers.sp.wrapping_add(2);
        self.registers.pc = addr;
        Ok(())
    }

    /// Returns if the condition `cc` holds.
    pub fn ret_cc(&mut self, cc: Cc) -> (r: Result<(), Fault>)
        ensures
            settled(old(self)@, final(self)@, r, old(self)@.ret_cc(cc)),
    {
        let val = self.flag_registers.get_c(cc);
        if val {
            self.ret()
        } else {
            Ok(())
        }
    }

    /// Returns, and enables interrupts.
    pub fn reti(&mut self) -> (r: Result<(), Fault>)
        ensures
            settled(old(self)@, final(self)@, r, old(self)@.reti()),
    {
        self.ret()?;
        self.ime = true;
        Ok(())
    }

    /// Pops the pair `rp2`.
    pub fn pop_rp2(&mut self, rp2: Rp2) -> (r: Result<(), Fault>)
        ensures
            settled(old(self)@, final(self)@, r, old(self)@.pop_rp2(rp2)),
    {
        let val = self.bus.read_word(self.registers.sp)?;
        self.registers.sp = self.registers.sp.wrapping_add(2);
        self.registers.set_r16(rp2, val, false);
        match rp2 {
            Rp2::Af => {
                proof {
                    lemma_word_halves(val);
                }
                self.flag_registers = FlagsRegisters::unpack((val & 0x00FF) as u8);
            },
            _ => {},
        }
        Ok(())
    }

    /// Pushes the pair `rp2`.
    pub fn push_rp2(&mut self, rp2: Rp2) -> (r: Result<(), Fault>)
        ensures
            settled(old(self)@, final(self)@, r, old(self)@.push_rp2(rp2)),
    {
        let mut registers = self.registers;
        match rp2 {
            Rp2::Af => {
                registers.f = self.flag_registers.pack();
            },
            _ => {},
        }
        let val = registers.get_rp2(rp2, true);
        registers.sp = registers.sp.wrapping_sub(2);
        self.bus.write_word(registers.sp, val)?;
        self.registers = registers;
        Ok(())
    }

    /// Calls `addr`: pushes the program counter, and jumps to `addr`.
    pub fn call(&mut self, addr: u16) -> (r: Result<(), Fault>)
        ensures
            settled(old(self)@, final(self)@, r, old(self)@.call(addr)),
    {
        let sp = self.registers.sp.wrapping_sub(2);
        self.bus.write_word(sp, self.registers.pc)?;
        self.registers.sp = sp;
        self.registers.pc = addr;
        Ok(())
    }

    /// Calls the address that follows the opcode.
    pub fn call_nn(&mut self) -> (r: Result<(), Fault>)
        ensures
            settled(old(self)@, final(self)@, r, old(self)@.call_nn()),
    {
        let entry = self.registers.pc;
        let addr = self.get_nn()?;
        match self.call(addr) {
            Ok(()) => Ok(()),
            Err(fault) => {
                self.registers.pc = entry;
                Err(fault)
            },
        }
    }

    /// Calls the address that follows the opcode if the condition `cc`
    /// holds.
    pub fn call_cc_nn(&mut self, cc: Cc) -> (r: Result<(), Fault>)
        ensures
            settled(old(self)@, final(self)@, r, old(self)@.call_cc_nn(cc)),
    {
        let val = self.flag_registers.get_c(cc);
        if val {
            self.call_nn()
        } else {
            self.get_nn()?;
            Ok(())
        }
    }

    /// Calls the fixed address `addr` in the first page.
    pub fn rst(&mut self, addr: u8) -> (r: Result<(), Fault>)
        ensures
            settled(old(self)@, final(self)@, r, old(self)@.rst(addr)),
    {
        self.call(addr as u16)
    }
}

} // verus!
