//! What each instruction does, stated on the processor's state as a value.
//!
//! Every function here takes the state in which the program counter already
//! points past the opcode, at the instruction's operand bytes if it has any,
//! and gives the state after the instruction, or the fault that stops it.
use vstd::prelude::*;
use crate::bits::{high_byte, low_byte, next, word, wrap16, wrap8};
use crate::bus::{backed, lemma_word_round_trip, BusState};
use crate::cpu::alu::{add16, add_signed, adjusted, alu, bit_set, dec8, displaced, inc8, mask, rotated};
use crate::cpu::flags::FlagsRegisters;
use crate::cpu::operand::{Alu, Cc, Rot, Rp, Rp2, R};
use crate::cpu::registers::Registers;
use crate::fault::Fault;

verus! {

/// The bit-fields of an opcode.
#[derive(Clone, Copy, Debug, PartialEq, Eq)]
pub struct Fields {
    /// Bits 6 and 7.
    pub x: u8,
    /// Bits 3 to 5.
    pub y: u8,
    /// Bits 0 to 2.
    pub z: u8,
    /// Bits 4 and 5: the upper two bits of `y`.
    pub p: u8,
    /// Bit 3: the lowest bit of `y`.
    pub q: u8,
}

/// The bit-fields of `opcode`.
pub open spec fn fields_of(opcode: u8) -> Fields {
    let y = (opcode / 8) % 8;
    Fields { x: opcode / 64, y, z: opcode % 8, p: y / 2, q: y % 2 }
}

/// The address in the page at 0xFF00 that lies `offset` bytes into it.
pub open spec fn high_page(offset: u8) -> u16 {
    (0xFF00 + offset) as u16
}

/// The state of the processor and of the memory it works on.
pub struct CpuState {
    pub registers: Registers,
    pub flags: FlagsRegisters,
    pub clock_cycles_wait: u8,
    pub halt: bool,
    pub ime: bool,
    pub bus: BusState,
}

impl CpuState {
    /// This state with other registers.
    pub open spec fn with_registers(self, registers: Registers) -> CpuState {
        CpuState { registers, ..self }
    }

    /// This state with other flags.
    pub open spec fn with_flags(self, flags: FlagsRegisters) -> CpuState {
        CpuState { flags, ..self }
    }

    /// This state with another accumulator.
    pub open spec fn with_a(self, a: u8) -> CpuState {
        self.with_registers(Registers { a, ..self.registers })
    }

    /// This state with another program counter.
    pub open spec fn with_pc(self, pc: u16) -> CpuState {
        self.with_registers(Registers { pc, ..self.registers })
    }

    /// This state with another stack pointer.
    pub open spec fn with_sp(self, sp: u16) -> CpuState {
        self.with_registers(Registers { sp, ..self.registers })
    }

    /// This state with another value in the pair HL.
    pub open spec fn with_hl(self, hl: u16) -> CpuState {
        self.with_registers(Registers { hl, ..self.registers })
    }

    /// This state with the program counter `count` bytes further on.
    pub open spec fn skip(self, count: int) -> CpuState {
        self.with_pc(wrap16(self.registers.pc + count))
    }

    /// The byte at the program counter.
    pub open spec fn n(self) -> Result<u8, Fault> {
        self.bus.read(self.registers.pc)
    }

    /// The word at the program counter.
    pub open spec fn nn(self) -> Result<u16, Fault> {
        self.bus.read_word(self.registers.pc)
    }

    /// The value of the operand `r`: that of the register, or, for the
    /// operand in memory, the byte at the address in HL.
    pub open spec fn read_r(self, r: R) -> Result<u8, Fault> {
        match self.registers.r(r) {
            Some(val) => Ok(val),
            None => self.bus.read(self.registers.hl),
        }
    }

    /// The state after `val` was written at `addr`.
    pub open spec fn store(self, addr: u16, val: u8) -> Result<CpuState, Fault> {
        match self.bus.write(addr, val) {
            Ok(bus) => Ok(CpuState { bus, ..self }),
            Err(fault) => Err(fault),
        }
    }

    /// The state after the word `val` was written at `addr`.
    pub open spec fn store_word(self, addr: u16, val: u16) -> Result<CpuState, Fault> {
        match self.bus.write_word(addr, val) {
            Ok(bus) => Ok(CpuState { bus, ..self }),
            Err(fault) => Err(fault),
        }
    }

    /// The state after `val` was put in the operand `r`: in the register, or,
    /// for the operand in memory, at the address in HL.
    pub open spec fn write_r(self, r: R, val: u8) -> Result<CpuState, Fault> {
        match r {
            R::Hl => self.store(self.registers.hl, val),
            _ => Ok(self.with_registers(self.registers.with_r(r, val))),
        }
    }

    /// The state after the word `val` was pushed: the stack pointer is two
    /// lower, and `val` lies where it points.
    pub open spec fn push(self, val: u16) -> Result<CpuState, Fault> {
        self.with_sp(wrap16(self.registers.sp - 2)).store_word(wrap16(self.registers.sp - 2), val)
    }

    /// The word on top of the stack.
    pub open spec fn top(self) -> Result<u16, Fault> {
        self.bus.read_word(self.registers.sp)
    }

    /// The state after a word was popped: the stack pointer is two higher.
    pub open spec fn popped(self) -> CpuState {
        self.with_sp(wrap16(self.registers.sp + 2))
    }

    /// The value of the accumulator pair: the accumulator above the four
    /// flags.
    pub open spec fn af(self) -> u16 {
        word(self.registers.a, self.flags.packed())
    }

    /// The value that a push of the pair `rp2` puts on the stack.
    pub open spec fn rp2(self, rp2: Rp2) -> u16 {
        match rp2 {
            Rp2::Af => self.af(),
            _ => self.registers.rp2(rp2, true),
        }
    }

    /// This state with the flags copied into the low byte of the accumulator
    /// pair.
    pub open spec fn synced(self) -> CpuState {
        self.with_registers(Registers { f: self.flags.packed(), ..self.registers })
    }

    /// This state with `val` in the pair `rp2`; for the accumulator pair the
    /// flags are taken from the bits 4 to 7 of `val` as well.
    pub open spec fn with_rp2(self, rp2: Rp2, val: u16) -> CpuState {
        match rp2 {
            Rp2::Af => self.with_registers(self.registers.with_af(val)).with_flags(
                FlagsRegisters::unpacked(low_byte(val)),
            ),
            _ => self.with_registers(self.registers.with_r16(rp2, val, false)),
        }
    }

    /// This state after the operation `op` of the arithmetic and logic unit
    /// on the accumulator and `val`.
    pub open spec fn apply(self, op: Alu, val: u8) -> CpuState {
        let out = alu(op, self.registers.a, val, self.flags);
        self.with_a(out.0).with_flags(out.1)
    }

    /// This state after the rotation `op` of the accumulator, with the zero,
    /// subtract and half-carry flags cleared.
    pub open spec fn rotate_a(self, op: Rot) -> CpuState {
        let out = rotated(op, self.registers.a, self.flags.c);
        self.with_a(out.0).with_flags(FlagsRegisters { z: false, n: false, h: false, c: out.1 })
    }

    /// No operation.
    pub open spec fn nop(self) -> Result<CpuState, Fault> {
        Ok(self)
    }

    /// Stores the stack pointer at the address that follows the opcode.
    pub open spec fn ld_nn_sp(self) -> Result<CpuState, Fault> {
        match self.nn() {
            Ok(addr) => self.skip(2).store_word(addr, self.registers.sp),
            Err(fault) => Err(fault),
        }
    }

    /// Stop: nothing happens yet.
    pub open spec fn stop(self) -> Result<CpuState, Fault> {
        Ok(self)
    }

    /// Jumps by the signed displacement that follows the opcode, counted
    /// from the instruction after this one.
    pub open spec fn jr_d(self) -> Result<CpuState, Fault> {
        match self.n() {
            Ok(d) => Ok(self.with_pc(displaced(next(self.registers.pc), d))),
            Err(fault) => Err(fault),
        }
    }

    /// Jumps as `jr_d` does if the condition `cc` holds, and goes on with
    /// the next instruction if not.
    pub open spec fn jr_cc_d(self, cc: Cc) -> Result<CpuState, Fault> {
        match self.n() {
            Ok(d) => Ok(
                if self.flags.holds(cc) {
                    self.with_pc(displaced(next(self.registers.pc), d))
                } else {
                    self.skip(1)
                },
            ),
            Err(fault) => Err(fault),
        }
    }

    /// Loads the pair `rp` with the word that follows the opcode.
    pub open spec fn ld_rp_nn(self, rp: Rp) -> Result<CpuState, Fault> {
        match self.nn() {
            Ok(val) => Ok(self.with_registers(self.registers.with_rp(rp, val)).skip(2)),
            Err(fault) => Err(fault),
        }
    }

    /// Adds the pair `rp` to HL.
    pub open spec fn add_hl_rp(self, rp: Rp) -> Result<CpuState, Fault> {
        let out = add16(self.registers.hl, self.registers.rp(rp), self.flags);
        Ok(self.with_hl(out.0).with_flags(out.1))
    }

    /// Stores the accumulator at the address in BC.
    pub open spec fn ld_bc_a(self) -> Result<CpuState, Fault> {
        self.store(self.registers.bc, self.registers.a)
    }

    /// Stores the accumulator at the address in DE.
    pub open spec fn ld_de_a(self) -> Result<CpuState, Fault> {
        self.store(self.registers.de, self.registers.a)
    }

    /// Stores the accumulator at the address in HL, and then adds one to HL.
    pub open spec fn ld_hl_p_a(self) -> Result<CpuState, Fault> {
        self.with_hl(wrap16(self.registers.hl + 1)).store(self.registers.hl, self.registers.a)
    }

    /// Stores the accumulator at the address in HL, and then takes one from
    /// HL.
    pub open spec fn ld_hl_m_a(self) -> Result<CpuState, Fault> {
        self.with_hl(wrap16(self.registers.hl - 1)).store(self.registers.hl, self.registers.a)
    }

    /// Loads the accumulator from `addr`.
    pub open spec fn load_a(self, addr: u16) -> Result<CpuState, Fault> {
        match self.bus.read(addr) {
            Ok(val) => Ok(self.with_a(val)),
            Err(fault) => Err(fault),
        }
    }

    /// Loads the accumulator from the address in BC.
    pub open spec fn ld_a_bc(self) -> Result<CpuState, Fault> {
        self.load_a(self.registers.bc)
    }

    /// Loads the accumulator from the address in DE.
    pub open spec fn ld_a_de(self) -> Result<CpuState, Fault> {
        self.load_a(self.registers.de)
    }

    /// Loads the accumulator from the address in HL, and then adds one to
    /// HL.
    pub open spec fn ld_a_p_hl(self) -> Result<CpuState, Fault> {
        self.with_hl(wrap16(self.registers.hl + 1)).load_a(self.registers.hl)
    }

    /// Loads the accumulator from the address in HL, and then takes one from
    /// HL.
    pub open spec fn ld_a_m_hl(self) -> Result<CpuState, Fault> {
        self.with_hl(wrap16(self.registers.hl - 1)).load_a(self.registers.hl)
    }

    /// Adds one to the pair `rp`, modulo 65536; no flag changes.
    pub open spec fn inc_rp(self, rp: Rp) -> Result<CpuState, Fault> {
        Ok(self.with_registers(self.registers.with_rp(rp, wrap16(self.registers.rp(rp) + 1))))
    }

    /// Takes one from the pair `rp`, modulo 65536; no flag changes.
    pub open spec fn dec_rp(self, rp: Rp) -> Result<CpuState, Fault> {
        Ok(self.with_registers(self.registers.with_rp(rp, wrap16(self.registers.rp(rp) - 1))))
    }

    /// Adds one to the operand `r`, modulo 256.
    pub open spec fn inc_r(self, r: R) -> Result<CpuState, Fault> {
        match self.read_r(r) {
            Ok(val) => self.with_flags(inc8(val, self.flags).1).write_r(
                r,
                inc8(val, self.flags).0,
            ),
            Err(fault) => Err(fault),
        }
    }

    /// Takes one from the operand `r`, modulo 256.
    pub open spec fn dec_r(self, r: R) -> Result<CpuState, Fault> {
        match self.read_r(r) {
            Ok(val) => self.with_flags(dec8(val, self.flags).1).write_r(
                r,
                dec8(val, self.flags).0,
            ),
            Err(fault) => Err(fault),
        }
    }

    /// Loads the operand `r` with the byte that follows the opcode.
    pub open spec fn ld_r_n(self, r: R) -> Result<CpuState, Fault> {
        match self.n() {
            Ok(val) => self.skip(1).write_r(r, val),
            Err(fault) => Err(fault),
        }
    }

    /// Rotates the accumulator to the left; bit 7 goes to bit 0 and to the
    /// carry flag.
    pub open spec fn rlca(self) -> Result<CpuState, Fault> {
        Ok(self.rotate_a(Rot::Rlc))
    }

    /// Rotates the accumulator to the right; bit 0 goes to bit 7 and to the
    /// carry flag.
    pub open spec fn rrca(self) -> Result<CpuState, Fault> {
        Ok(self.rotate_a(Rot::Rrc))
    }

    /// Rotates the accumulator to the left through the carry flag.
    pub open spec fn rla(self) -> Result<CpuState, Fault> {
        Ok(self.rotate_a(Rot::Rl))
    }

    /// Rotates the accumulator to the right through the carry flag.
    pub open spec fn rra(self) -> Result<CpuState, Fault> {
        Ok(self.rotate_a(Rot::Rr))
    }

    /// Adjusts the accumulator to two decimal digits.
    pub open spec fn daa(self) -> Result<CpuState, Fault> {
        let out = adjusted(self.registers.a, self.flags);
        Ok(self.with_a(out.0).with_flags(out.1))
    }

    /// Complements the accumulator, and sets the subtract and half-carry
    /// flags.
    pub open spec fn cpl(self) -> Result<CpuState, Fault> {
        Ok(
            self.with_a((255 - self.registers.a) as u8).with_flags(
                FlagsRegisters { n: true, h: true, ..self.flags },
            ),
        )
    }

    /// Sets the carry flag, and clears the subtract and half-carry flags.
    pub open spec fn scf(self) -> Result<CpuState, Fault> {
        Ok(self.with_flags(FlagsRegisters { n: false, h: false, c: true, ..self.flags }))
    }

    /// Inverts the carry flag, and clears the subtract and half-carry flags.
    pub open spec fn ccf(self) -> Result<CpuState, Fault> {
        Ok(self.with_flags(FlagsRegisters { n: false, h: false, c: !self.flags.c, ..self.flags }))
    }

    /// Loads the operand `left` with the operand `right`.
    pub open spec fn ld_r_r(self, left: R, right: R) -> Result<CpuState, Fault> {
        match self.read_r(right) {
            Ok(val) => self.write_r(left, val),
            Err(fault) => Err(fault),
        }
    }

    /// Halts the processor.
    pub open spec fn halt(self) -> Result<CpuState, Fault> {
        Ok(CpuState { halt: true, ..self })
    }

    /// The operation `op` on the accumulator and the operand `r`.
    pub open spec fn alu_r(self, op: Alu, r: R) -> Result<CpuState, Fault> {
        match self.read_r(r) {
            Ok(val) => Ok(self.apply(op, val)),
            Err(fault) => Err(fault),
        }
    }

    /// The operation `op` on the accumulator and the byte that follows the
    /// opcode.
    pub open spec fn alu_n(self, op: Alu) -> Result<CpuState, Fault> {
        match self.n() {
            Ok(val) => Ok(self.skip(1).apply(op, val)),
            Err(fault) => Err(fault),
        }
    }

    /// Returns: pops the program counter.
    pub open spec fn ret(self) -> Result<CpuState, Fault> {
        match self.top() {
            Ok(addr) => Ok(self.popped().with_pc(addr)),
            Err(fault) => Err(fault),
        }
    }

    /// Returns if the condition `cc` holds.
    pub open spec fn ret_cc(self, cc: Cc) -> Result<CpuState, Fault> {
        if self.flags.holds(cc) {
            self.ret()
        } else {
            Ok(self)
        }
    }

    /// Returns, and enables interrupts.
    pub open spec fn reti(self) -> Result<CpuState, Fault> {
        match self.ret() {
            Ok(after) => Ok(CpuState { ime: true, ..after }),
            Err(fault) => Err(fault),
        }
    }

    /// Stores the accumulator in the high page, at the offset that follows
    /// the opcode.
    pub open spec fn ld_8n_a(self) -> Result<CpuState, Fault> {
        match self.n() {
            Ok(offset) => self.skip(1).store(high_page(offset), self.registers.a),
            Err(fault) => Err(fault),
        }
    }

    /// Loads the accumulator from the high page, at the offset that follows
    /// the opcode.
    pub open spec fn ld_a_8n(self) -> Result<CpuState, Fault> {
        match self.n() {
            Ok(offset) => self.skip(1).load_a(high_page(offset)),
            Err(fault) => Err(fault),
        }
    }

    /// Adds the signed displacement that follows the opcode to the stack
    /// pointer.
    pub open spec fn add_sp_d(self) -> Result<CpuState, Fault> {
        match self.n() {
            Ok(d) => Ok(
                self.skip(1).with_sp(add_signed(self.registers.sp, d).0).with_flags(
                    add_signed(self.registers.sp, d).1,
                ),
            ),
            Err(fault) => Err(fault),
        }
    }

    /// Loads HL with the stack pointer moved by the signed displacement that
    /// follows the opcode.
    pub open spec fn lh_hl_sp_d(self) -> Result<CpuState, Fault> {
        match self.n() {
            Ok(d) => Ok(
                self.skip(1).with_hl(add_signed(self.registers.sp, d).0).with_flags(
                    add_signed(self.registers.sp, d).1,
                ),
            ),
            Err(fault) => Err(fault),
        }
    }

    /// Pops the pair `rp2`.
    pub open spec fn pop_rp2(self, rp2: Rp2) -> Result<CpuState, Fault> {
        match self.top() {
            Ok(val) => Ok(self.popped().with_rp2(rp2, val)),
            Err(fault) => Err(fault),
        }
    }

    /// Pushes the pair `rp2`. A push of the accumulator pair also copies the
    /// flags into the low byte of the pair.
    pub open spec fn push_rp2(self, rp2: Rp2) -> Result<CpuState, Fault> {
        match rp2 {
            Rp2::Af => self.synced().push(self.af()),
            _ => self.push(self.rp2(rp2)),
        }
    }

    /// Jumps to the address in HL.
    pub open spec fn jp_hl(self) -> Result<CpuState, Fault> {
        Ok(self.with_pc(self.registers.hl))
    }

    /// Loads the stack pointer with HL.
    pub open spec fn ld_sp_hl(self) -> Result<CpuState, Fault> {
        Ok(self.with_sp(self.registers.hl))
    }

    /// Jumps to the address that follows the opcode.
    pub open spec fn jp_nn(self) -> Result<CpuState, Fault> {
        match self.nn() {
            Ok(addr) => Ok(self.with_pc(addr)),
            Err(fault) => Err(fault),
        }
    }

    /// Jumps to the address that follows the opcode if the condition `cc`
    /// holds, and goes on with the next instruction if not.
    pub open spec fn jp_cc_nn(self, cc: Cc) -> Result<CpuState, Fault> {
        match self.nn() {
            Ok(addr) => Ok(
                if self.flags.holds(cc) {
                    self.with_pc(addr)
                } else {
                    self.skip(2)
                },
            ),
            Err(fault) => Err(fault),
        }
    }

    /// Stores the accumulator in the high page, at the offset in C.
    pub open spec fn ld_8c_a(self) -> Result<CpuState, Fault> {
        self.store(high_page(self.registers.c()), self.registers.a)
    }

    /// Loads the accumulator from the high page, at the offset in C.
    pub open spec fn ld_a_8c(self) -> Result<CpuState, Fault> {
        self.load_a(high_page(self.registers.c()))
    }

    /// Stores the accumulator at the address that follows the opcode.
    pub open spec fn ld_nn_a(self) -> Result<CpuState, Fault> {
        match self.nn() {
            Ok(addr) => self.skip(2).store(addr, self.registers.a),
            Err(fault) => Err(fault),
        }
    }

    /// Loads the accumulator from the address that follows the opcode.
    pub open spec fn ld_a_nn(self) -> Result<CpuState, Fault> {
        match self.nn() {
            Ok(addr) => self.skip(2).load_a(addr),
            Err(fault) => Err(fault),
        }
    }

    /// Disables interrupts.
    pub open spec fn di(self) -> Result<CpuState, Fault> {
        Ok(CpuState { ime: false, ..self })
    }

    /// Enables interrupts.
    pub open spec fn ei(self) -> Result<CpuState, Fault> {
        Ok(CpuState { ime: true, ..self })
    }

    /// Calls `addr`: pushes the program counter, and jumps to `addr`.
    pub open spec fn call(self, addr: u16) -> Result<CpuState, Fault> {
        self.with_pc(addr).push(self.registers.pc)
    }

    /// Calls the address that follows the opcode; the address pushed is that
    /// of the next instruction.
    pub open spec fn call_nn(self) -> Result<CpuState, Fault> {
        match self.nn() {
            Ok(addr) => self.skip(2).call(addr),
            Err(fault) => Err(fault),
        }
    }

    /// Calls the address that follows the opcode if the condition `cc`
    /// holds, and goes on with the next instruction if not.
    pub open spec fn call_cc_nn(self, cc: Cc) -> Result<CpuState, Fault> {
        match self.nn() {
            Ok(addr) => if self.flags.holds(cc) {
                self.skip(2).call(addr)
            } else {
                Ok(self.skip(2))
            },
            Err(fault) => Err(fault),
        }
    }

    /// Calls the fixed address `addr` in the first page.
    pub open spec fn rst(self, addr: u8) -> Result<CpuState, Fault> {
        self.call(addr as u16)
    }

    /// Rotates or shifts the operand `r`, as `op` says.
    pub open spec fn rot(self, op: Rot, r: R) -> Result<CpuState, Fault> {
        match self.read_r(r) {
            Ok(val) => {
                let out = rotated(op, val, self.flags.c);
                self.with_flags(
                    FlagsRegisters { z: out.0 == 0, n: false, h: false, c: out.1 },
                ).write_r(r, out.0)
            },
            Err(fault) => Err(fault),
        }
    }

    /// Tests the bit `k` of the operand `r`: the zero flag is set if the bit
    /// is clear.
    pub open spec fn bit(self, k: u8, r: R) -> Result<CpuState, Fault> {
        match self.read_r(r) {
            Ok(val) => Ok(
                self.with_flags(
                    FlagsRegisters { z: !bit_set(val, k), n: false, h: true, c: self.flags.c },
                ),
            ),
            Err(fault) => Err(fault),
        }
    }

    /// Clears the bit `k` of the operand `r`.
    pub open spec fn res(self, k: u8, r: R) -> Result<CpuState, Fault> {
        match self.read_r(r) {
            Ok(val) => self.write_r(r, val & !mask(k)),
            Err(fault) => Err(fault),
        }
    }

    /// Sets the bit `k` of the operand `r`.
    pub open spec fn set(self, k: u8, r: R) -> Result<CpuState, Fault> {
        match self.read_r(r) {
            Ok(val) => self.write_r(r, val | mask(k)),
            Err(fault) => Err(fault),
        }
    }

    /// The instruction of the prefixed page that `opcode` stands for.
    pub open spec fn execute_prefixed(self, opcode: u8) -> Result<CpuState, Fault> {
        let f = fields_of(opcode);
        if f.x == 0 {
            self.rot(Rot::of(f.y), R::of(f.z))
        } else if f.x == 1 {
            self.bit(f.y, R::of(f.z))
        } else if f.x == 2 {
            self.res(f.y, R::of(f.z))
        } else {
            self.set(f.y, R::of(f.z))
        }
    }

    /// The prefix: the byte that follows it is an opcode of the prefixed
    /// page.
    pub open spec fn prefix(self) -> Result<CpuState, Fault> {
        match self.n() {
            Ok(opcode) => self.skip(1).execute_prefixed(opcode),
            Err(fault) => Err(fault),
        }
    }

    /// The instructions whose field `x` is 0.
    pub open spec fn execute_x0(self, f: Fields) -> Result<CpuState, Fault> {
        if f.z == 0 {
            if f.y == 0 {
                self.nop()
            } else if f.y == 1 {
                self.ld_nn_sp()
            } else if f.y == 2 {
                self.stop()
            } else if f.y == 3 {
                self.jr_d()
            } else {
                self.jr_cc_d(Cc::of((f.y - 4) as u8))
            }
        } else if f.z == 1 {
            if f.q == 0 {
                self.ld_rp_nn(Rp::of(f.p))
            } else {
                self.add_hl_rp(Rp::of(f.p))
            }
        } else if f.z == 2 {
            if f.q == 0 {
                if f.p == 0 {
                    self.ld_bc_a()
                } else if f.p == 1 {
                    self.ld_de_a()
                } else if f.p == 2 {
                    self.ld_hl_p_a()
                } else {
                    self.ld_hl_m_a()
                }
            } else {
                if f.p == 0 {
                    self.ld_a_bc()
                } else if f.p == 1 {
                    self.ld_a_de()
                } else if f.p == 2 {
                    self.ld_a_p_hl()
                } else {
                    self.ld_a_m_hl()
                }
            }
        } else if f.z == 3 {
            if f.q == 0 {
                self.inc_rp(Rp::of(f.p))
            } else {
                self.dec_rp(Rp::of(f.p))
            }
        } else if f.z == 4 {
            self.inc_r(R::of(f.y))
        } else if f.z == 5 {
            self.dec_r(R::of(f.y))
        } else if f.z == 6 {
            self.ld_r_n(R::of(f.y))
        } else {
            if f.y == 0 {
                self.rlca()
            } else if f.y == 1 {
                self.rrca()
            } else if f.y == 2 {
                self.rla()
            } else if f.y == 3 {
                self.rra()
            } else if f.y == 4 {
                self.daa()
            } else if f.y == 5 {
                self.cpl()
            } else if f.y == 6 {
                self.scf()
            } else {
                self.ccf()
            }
        }
    }

    /// The instructions whose field `x` is 3.
    pub open spec fn execute_x3(self, f: Fields) -> Result<CpuState, Fault> {
        if f.z == 0 {
            if f.y <= 3 {
                self.ret_cc(Cc::of(f.y))
            } else if f.y == 4 {
                self.ld_8n_a()
            } else if f.y == 5 {
                self.add_sp_d()
            } else if f.y == 6 {
                self.ld_a_8n()
            } else {
                self.lh_hl_sp_d()
            }
        } else if f.z == 1 {
            if f.q == 0 {
                self.pop_rp2(Rp2::of(f.p))
            } else if f.p == 0 {
                self.ret()
            } else if f.p == 1 {
                self.reti()
            } else if f.p == 2 {
                self.jp_hl()
            } else {
                self.ld_sp_hl()
            }
        } else if f.z == 2 {
            if f.y <= 3 {
                self.jp_cc_nn(Cc::of(f.y))
            } else if f.y == 4 {
                self.ld_8c_a()
            } else if f.y == 5 {
                self.ld_nn_a()
            } else if f.y == 6 {
                self.ld_a_8c()
            } else {
                self.ld_a_nn()
            }
        } else if f.z == 3 {
            if f.y == 0 {
                self.jp_nn()
            } else if f.y == 1 {
                self.prefix()
            } else if f.y == 6 {
                self.di()
            } else if f.y == 7 {
                self.ei()
            } else {
                Err(Fault::UnknownOpcode)
            }
        } else if f.z == 4 {
            if f.y <= 3 {
                self.call_cc_nn(Cc::of(f.y))
            } else {
                Err(Fault::UnknownOpcode)
            }
        } else if f.z == 5 {
            if f.q == 0 {
                self.push_rp2(Rp2::of(f.p))
            } else if f.p == 0 {
                self.call_nn()
            } else {
                Err(Fault::UnknownOpcode)
            }
        } else if f.z == 6 {
            self.alu_n(Alu::of(f.y))
        } else {
            self.rst((f.y * 8) as u8)
        }
    }

    /// The instruction that `opcode` stands for, picked by its bit-fields.
    pub open spec fn execute(self, opcode: u8) -> Result<CpuState, Fault> {
        let f = fields_of(opcode);
        if f.x == 0 {
            self.execute_x0(f)
        } else if f.x == 1 {
            if f.z == 6 && f.y == 6 {
                self.halt()
            } else {
                self.ld_r_r(R::of(f.y), R::of(f.z))
            }
        } else if f.x == 2 {
            self.alu_r(Alu::of(f.y), R::of(f.z))
        } else {
            self.execute_x3(f)
        }
    }

    /// One step: the opcode at the program counter is fetched, the program
    /// counter moves past it, and the instruction is carried out.
    pub open spec fn step(self) -> Result<CpuState, Fault> {
        match self.n() {
            Ok(opcode) => self.skip(1).execute(opcode),
            Err(fault) => Err(fault),
        }
    }
}

/// A pair that is pushed and then popped comes back as it was, and the stack
/// pointer is where it was before: this holds where the console's own memory
/// keeps the two bytes below the stack pointer. Nothing else in the
/// registers and flags changes, but that a push of the accumulator pair
/// leaves a copy of the flags in the low byte of the pair.
pub proof fn lemma_push_pop(s: CpuState, rp2: Rp2)
    requires
        s.bus.wf(),
        backed(wrap16(s.registers.sp - 2)),
        backed(wrap16(s.registers.sp - 1)),
    ensures
        s.push_rp2(rp2) is Ok,
        s.push_rp2(rp2)->Ok_0.registers.sp == wrap16(s.registers.sp - 2),
        s.push_rp2(rp2)->Ok_0.pop_rp2(rp2) is Ok,
        s.push_rp2(rp2)->Ok_0.pop_rp2(rp2)->Ok_0.registers.sp == s.registers.sp,
        s.push_rp2(rp2)->Ok_0.pop_rp2(rp2)->Ok_0.rp2(rp2) == s.rp2(rp2),
        s.push_rp2(rp2)->Ok_0.pop_rp2(rp2)->Ok_0.flags == s.flags,
        s.push_rp2(rp2)->Ok_0.pop_rp2(rp2)->Ok_0.registers == (if rp2 is Af {
            s.synced().registers
        } else {
            s.registers
        }),
{
    let sp = wrap16(s.registers.sp - 2);
    assert(next(sp) == wrap16(s.registers.sp - 1));
    assert(wrap16(sp + 2) == s.registers.sp);
    lemma_word_round_trip(s.bus, sp, s.rp2(rp2));
}

} // verus!
