//! The processor: its registers and flags, the meaning of each instruction,
//! and the decoder that picks the instruction for an opcode.
use vstd::prelude::*;
use crate::bus::Bus;
use crate::fault::{settled, Fault};

pub mod alu;
pub mod arith;
pub mod control;
pub mod decode;
pub mod flags;
pub mod load;
pub mod operand;
pub mod prefixed;
pub mod registers;
pub mod state;

pub use crate::cpu::flags::FlagsRegisters;
pub use crate::cpu::operand::R;
pub use crate::cpu::registers::Registers;
pub use crate::cpu::state::{fields_of, CpuState, Fields};

verus! {

/// The processor, with the bus it owns.
pub struct Cpu {
    pub registers: Registers,
    pub flag_registers: FlagsRegisters,
    /// Clock cycles still to wait for; no instruction counts them yet.
    pub clock_cycles_wait: u8,
    /// Set by the halt instruction.
    pub halt: bool,
    /// The interrupt master enable flag.
    pub ime: bool,
    pub bus: Bus,
}

impl View for Cpu {
    type V = CpuState;

    open spec fn view(&self) -> CpuState {
        CpuState {
            registers: self.registers,
            flags: self.flag_registers,
            clock_cycles_wait: self.clock_cycles_wait,
            halt: self.halt,
            ime: self.ime,
            bus: self.bus@,
        }
    }
}

/// What a step has fetched: the opcode, the program counter after the fetch,
/// and the opcode's bit-fields.
#[derive(Clone, Copy, Debug, PartialEq, Eq)]
pub struct Trace {
    pub opcode: u8,
    pub pc: u16,
    pub fields: Fields,
}

impl Cpu {
    /// A processor over `bus`: registers and flags zero, not halted,
    /// interrupts disabled.
    pub fn new(bus: Bus) -> (cpu: Cpu)
        ensures
            cpu@ == (CpuState {
                registers: Registers { a: 0, f: 0, bc: 0, de: 0, hl: 0, sp: 0, pc: 0 },
                flags: FlagsRegisters { z: false, n: false, h: false, c: false },
                clock_cycles_wait: 0,
                halt: false,
                ime: false,
                bus: bus@,
            }),
    {
        Cpu {
            registers: Registers::new(),
            flag_registers: FlagsRegisters::new(),
            clock_cycles_wait: 0,
            halt: false,
            ime: false,
            bus,
        }
    }

    /// Fetches the byte at the program counter, and moves the program
    /// counter past it.
    pub fn get_n(&mut self) -> (r: Result<u8, Fault>)
        ensures
            match old(self)@.n() {
                Ok(byte) => r == Ok::<u8, Fault>(byte) && final(self)@ == old(self)@.skip(1),
                Err(fault) => r == Err::<u8, Fault>(fault) && final(self)@ == old(self)@,
            },
    {
        let byte = self.bus.read_byte(self.registers.pc)?;
        self.registers.pc = self.registers.pc.wrapping_add(1);
        Ok(byte)
    }

    /// Fetches the word at the program counter, and moves the program
    /// counter past it.
    pub fn get_nn(&mut self) -> (r: Result<u16, Fault>)
        ensures
            match old(self)@.nn() {
                Ok(word) => r == Ok::<u16, Fault>(word) && final(self)@ == old(self)@.skip(2),
                Err(fault) => r == Err::<u16, Fault>(fault) && final(self)@ == old(self)@,
            },
    {
        let word = self.bus.read_word(self.registers.pc)?;
        self.registers.pc = self.registers.pc.wrapping_add(2);
        Ok(word)
    }

    /// Reads the operand `r`: a register, or the byte at the address in HL.
    pub fn read_r(&self, r: R) -> (val: Result<u8, Fault>)
        ensures
            val == self@.read_r(r),
    {
        match self.registers.get_r(r) {
            Some(val) => Ok(val),
            None => self.bus.read_byte(self.registers.hl),
        }
    }

    /// Writes the operand `r`: a register, or the byte at the address in HL.
    pub fn write_r(&mut self, r: R, val: u8) -> (done: Result<(), Fault>)
        ensures
            settled(old(self)@, final(self)@, done, old(self)@.write_r(r, val)),
    {
        match r {
            R::Hl => self.bus.write_byte(self.registers.hl, val),
            _ => {
                self.registers.set_r(r, val);
                Ok(())
            },
        }
    }

    /// Carries out one instruction: fetches the opcode at the program
    /// counter, moves the program counter past it, and hands the opcode to
    /// the decoder. On success the trace of what was fetched is returned; on
    /// a fault, nothing has changed.
    pub fn step(&mut self) -> (r: Result<Trace, Fault>)
        ensures
            match old(self)@.step() {
                Ok(next) => {
                    &&& final(self)@ == next
                    &&& r == Ok::<Trace, Fault>(
                        Trace {
                            opcode: old(self)@.n()->Ok_0,
                            pc: old(self)@.skip(1).registers.pc,
                            fields: fields_of(old(self)@.n()->Ok_0),
                        },
                    )
                },
                Err(fault) => r == Err::<Trace, Fault>(fault) && final(self)@ == old(self)@,
            },
    {
        let entry = self.registers.pc;
        let opcode = self.get_n()?;
        let pc = self.registers.pc;
        match self.call_operation(opcode) {
            Ok(()) => Ok(Trace { opcode, pc, fields: Self::decompose(opcode) }),
            Err(fault) => {
                self.registers.pc = entry;
                Err(fault)
            },
        }
    }
}

} // verus!
