//! The load instructions.
use vstd::prelude::*;
use crate::cpu::alu::add_displacement;
use crate::cpu::operand::{Rp, R};
use crate::cpu::Cpu;
use crate::fault::{settled, Fault};

verus! {

impl Cpu {
    /// Stores the stack pointer at the address that follows the opcode.
    pub fn ld_nn_sp(&mut self) -> (r: Result<(), Fault>)
        ensures
            settled(old(self)@, final(self)@, r, old(self)@.ld_nn_sp()),
    {
        let addr = self.bus.read_word(self.registers.pc)?;
        self.bus.write_word(addr, self.registers.sp)?;
        self.registers.pc = self.registers.pc.wrapping_add(2);
        Ok(())
    }

    /// Loads the pair `rp` with the word that follows the opcode.
    pub fn ld_rp_nn(&mut self, rp: Rp) -> (r: Result<(), Fault>)
        ensures
            settled(old(self)@, final(self)@, r, old(self)@.ld_rp_nn(rp)),
    {
        let nn = self.get_nn()?;
        self.registers.set_rp(rp, nn);
        Ok(())
    }

    /// Stores the accumulator at the address in BC.
    pub fn ld_bc_a(&mut self) -> (r: Result<(), Fault>)
        ensures
            settled(old(self)@, final(self)@, r, old(self)@.ld_bc_a()),
    {
        self.bus.write_byte(self.registers.bc, self.registers.a)
    }

    /// Stores the accumulator at the address in DE.
    pub fn ld_de_a(&mut self) -> (r: Result<(), Fault>)
        ensures
            settled(old(self)@, final(self)@, r, old(self)@.ld_de_a()),
    {
        self.bus.write_byte(self.registers.de, self.registers.a)
    }

    /// Stores the accumulator at the address in HL, and then adds one to HL.
    pub fn ld_hl_p_a(&mut self) -> (r: Result<(), Fault>)
        ensures
            settled(old(self)@, final(self)@, r, old(self)@.ld_hl_p_a()),
    {
        self.bus.write_byte(self.registers.hl, self.registers.a)?;
        self.registers.hl = self.registers.hl.wrapping_add(1);
        Ok(())
    }

    /// Stores the accumulator at the address in HL, and then takes one from
    /// HL.
    pub fn ld_hl_m_a(&mut self) -> (r: Result<(), Fault>)
        ensures
            settled(old(self)@, final(self)@, r, old(self)@.ld_hl_m_a()),
    {
        self.bus.write_byte(self.registers.hl, self.registers.a)?;
        self.registers.hl = self.registers.hl.wrapping_sub(1);
        Ok(())
    }

    /// Loads the accumulator from the address in BC.
    pub fn ld_a_bc(&mut self) -> (r: Result<(), Fault>)
        ensures
            settled(old(self)@, final(self)@, r, old(self)@.ld_a_bc()),
    {
        let val = self.bus.read_byte(self.registers.bc)?;
        self.registers.a = val;
        Ok(())
    }

    /// Loads the accumulator from the address in DE.
    pub fn ld_a_de(&mut self) -> (r: Result<(), Fault>)
        ensures
            settled(old(self)@, final(self)@, r, old(self)@.ld_a_de()),
    {
        let val = self.bus.read_byte(self.registers.de)?;
        self.registers.a = val;
        Ok(())
    }

    /// Loads the accumulator from the address in HL, and then adds one to
    /// HL.
    pub fn ld_a_p_hl(&mut self) -> (r: Result<(), Fault>)
        ensures
            settled(old(self)@, final(self)@, r, old(self)@.ld_a_p_hl()),
    {
        let val = self.bus.read_byte(self.registers.hl)?;
        self.registers.a = val;
        self.registers.hl = self.registers.hl.wrapping_add(1);
        Ok(())
    }

    /// Loads the accumulator from the address in HL, and then takes one from
    /// HL.
    pub fn ld_a_m_hl(&mut self) -> (r: Result<(), Fault>)
        ensures
            settled(old(self)@, final(self)@, r, old(self)@.ld_a_m_hl()),
    {
        let val = self.bus.read_byte(self.registers.hl)?;
        self.registers.a = val;
        self.registers.hl = self.registers.hl.wrapping_sub(1);
        Ok(())
    }

    /// Loads the operand `r` with the byte that follows the opcode.
    pub fn ld_r_n(&mut self, r: R) -> (done: Result<(), Fault>)
        ensures
            settled(old(self)@, final(self)@, done, old(self)@.ld_r_n(r)),
    {
        let n = self.bus.read_byte(self.registers.pc)?;
        self.write_r(r, n)?;
        self.registers.pc = self.registers.pc.wrapping_add(1);
        Ok(())
    }

    /// Loads the operand `left` with the operand `right`.
    pub fn ld_r_r(&mut self, left: R, right: R) -> (done: Result<(), Fault>)
        ensures
            settled(old(self)@, final(self)@, done, old(self)@.ld_r_r(left, right)),
    {
        let val = self.read_r(right)?;
        self.write_r(left, val)
    }

    /// Stores the accumulator in the high page, at the offset that follows
    /// the opcode.
    pub fn ld_8n_a(&mut self) -> (r: Result<(), Fault>)
        ensures
            settled(old(self)@, final(self)@, r, old(self)@.ld_8n_a()),
    {
        let index = self.bus.read_byte(self.registers.pc)?;
        let addr: u16 = 0xFF00 + index as u16;
        self.bus.write_byte(addr, self.registers.a)?;
        self.registers.pc = self.registers.pc.wrapping_add(1);
        Ok(())
    }

    /// Loads the accumulator from the high page, at the offset that follows
    /// the opcode.
    pub fn ld_a_8n(&mut self) -> (r: Result<(), Fault>)
        ensures
            settled(old(self)@, final(self)@, r, old(self)@.ld_a_8n()),
    {
        let index = self.bus.read_byte(self.registers.pc)?;
        let addr: u16 = 0xFF00 + index as u16;
        let val = self.bus.read_byte(addr)?;
        self.registers.a = val;
        self.registers.pc = self.registers.pc.wrapping_add(1);
        Ok(())
    }

    /// Loads the stack pointer with HL.
    pub fn ld_sp_hl(&mut self) -> (r: Result<(), Fault>)
        ensures
            settled(old(self)@, final(self)@, r, old(self)@.ld_sp_hl()),
    {
        self.registers.sp = self.registers.hl;
        Ok(())
    }

    /// Stores the accumulator in the high page, at the offset in C.
    pub fn ld_8c_a(&mut self) -> (r: Result<(), Fault>)
        ensures
            settled(old(self)@, final(self)@, r, old(self)@.ld_8c_a()),
    {
        let index = self.registers.get_c();
        let addr: u16 = 0xFF00 + index as u16;
        self.bus.write_byte(addr, self.registers.a)
    }

    /// Stores the accumulator at the address that follows the opcode.
    pub fn ld_nn_a(&mut self) -> (r: Result<(), Fault>)
        ensures
            settled(old(self)@, final(self)@, r, old(self)@.ld_nn_a()),
    {
        let addr = self.bus.read_word(self.registers.pc)?;
        let val = self.registers.a;
        self.bus.write_byte(addr, val)?;
        self.registers.pc = self.registers.pc.wrapping_add(2);
        Ok(())
    }

    /// Loads the accumulator from the high page, at the offset in C.
    pub fn ld_a_8c(&mut self) -> (r: Result<(), Fault>)
        ensures
            settled(old(self)@, final(self)@, r, old(self)@.ld_a_8c()),
    {
        let index = self.registers.get_c();
        let addr: u16 = 0xFF00 + index as u16;
        let val = self.bus.read_byte(addr)?;
        self.registers.a = val;
        Ok(())
    }

    /// Loads the accumulator from the address that follows the opcode.
    pub fn ld_a_nn(&mut self) -> (r: Result<(), Fault>)
        ensures
            settled(old(self)@, final(self)@, r, old(self)@.ld_a_nn()),
    {
        let addr = self.bus.read_word(self.registers.pc)?;
        let val = self.bus.read_byte(addr)?;
        self.registers.a = val;
        self.registers.pc = self.registers.pc.wrapping_add(2);
        Ok(())
    }

    /// Loads HL with the stack pointer moved by the signed displacement that
    /// follows the opcode.
    pub fn lh_hl_sp_d(&mut self) -> (r: Result<(), Fault>)
        ensures
            settled(old(self)@, final(self)@, r, old(self)@.lh_hl_sp_d()),
    {
        let base_addr = self.registers.sp;
        let d = self.get_n()?;
        let (moved, flags) = add_displacement(base_addr, d);
        self.registers.hl = moved;
        self.flag_registers = flags;
        Ok(())
    }
}

} // verus!
