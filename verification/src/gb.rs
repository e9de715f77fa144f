//! The console: a processor over a bus over a cartridge.
use vstd::prelude::*;
use crate::bus::{Bus, BusState};
use crate::cpu::{fields_of, Cpu, CpuState, FlagsRegisters, Registers, Trace};
use crate::fault::Fault;
use crate::mbc::{new_mbc, MbcKind, MbcState};
use crate::ram::BANK_SIZE;
use crate::rom::{
    lemma_code_is_unique, rejection, zeros, CartridgeType, Rom, RomError, CARTRIDGE_TYPE,
};

verus! {

/// The console.
pub struct Gb {
    cpu: Cpu,
}

impl View for Gb {
    type V = CpuState;

    closed spec fn view(&self) -> CpuState {
        self.cpu@
    }
}

/// The state in which a console starts on a cartridge with the image `image`
/// and a bank controller of the kind `kind`: every register and flag zero,
/// not halted, interrupts disabled, and all memory but the image cleared.
pub open spec fn power_on(kind: MbcKind, image: Seq<u8>) -> CpuState {
    CpuState {
        registers: Registers { a: 0, f: 0, bc: 0, de: 0, hl: 0, sp: 0, pc: 0 },
        flags: FlagsRegisters { z: false, n: false, h: false, c: false },
        clock_cycles_wait: 0,
        halt: false,
        ime: false,
        bus: BusState {
            mbc: MbcState::fresh(kind, image),
            work: zeros(BANK_SIZE as nat),
            high: zeros(BANK_SIZE as nat),
            ie: 0,
        },
    }
}

/// The reason for which no console starts on `image`: the first fault of its
/// header, or, with a sound header, a cartridge type that no bank controller
/// serves; `None` where one starts.
pub open spec fn refusal(image: Seq<u8>) -> Option<RomError> {
    match rejection(image) {
        Some(e) => Some(e),
        None => match MbcKind::serving(image[CARTRIDGE_TYPE as int]) {
            Some(_) => None,
            None => Some(
                RomError::UnsupportedCartridgeType(CartridgeType::of(image[CARTRIDGE_TYPE as int])),
            ),
        },
    }
}

impl Gb {
    /// Starts a console on the cartridge image `image`.
    pub fn new(image: Vec<u8>) -> (made: Result<Gb, RomError>)
        ensures
            match made {
                Ok(gb) => {
                    &&& refusal(image@) is None
                    &&& gb@ == power_on(
                        MbcKind::serving(image@[CARTRIDGE_TYPE as int])->0,
                        image@,
                    )
                },
                Err(e) => refusal(image@) == Some(e),
            },
    {
        let ghost bytes = image@;
        let rom = Rom::new(image)?;
        proof {
            lemma_code_is_unique(
                rom.cartridge_type,
                CartridgeType::of(bytes[CARTRIDGE_TYPE as int]),
            );
        }
        let mbc = new_mbc(rom)?;
        let bus = Bus::new(mbc);
        let cpu = Cpu::new(bus);
        Ok(Gb { cpu })
    }

    /// The processor of the console.
    pub fn cpu(&self) -> (cpu: &Cpu)
        ensures
            cpu@ == self@,
    {
        &self.cpu
    }

    /// Carries out one instruction.
    pub fn step(&mut self) -> (r: Result<Trace, Fault>)
        ensures
            match old(self)@.step() {
                Ok(next) => {
                    &&& final(self)@ == next
                    &&& r == Ok::<Trace, Fault>(
                        Trace {
                            opcode: old(self)@.n()->Ok_0,
                            pc: old(self)@.skip(1).registers.pc,
                            fields: fields_of(old(self)@.n()->Ok_0),
                        },
                    )
                },
                Err(fault) => r == Err::<Trace, Fault>(fault) && final(self)@ == old(self)@,
            },
    {
        self.cpu.step()
    }
}

} // verus!
