//! The memory bus: it sends every access of the processor to the device
//! that the address belongs to.
use vstd::prelude::*;
use crate::bits::{high_byte, lemma_word_halves, lemma_word_join, low_byte, next, word};
use crate::fault::{settled, Fault};
use crate::mbc::{Mbc, MbcState};
use crate::ram::{Ram, BANK_SIZE};
use crate::rom::zeros;

verus! {

/// The device that an address belongs to.
#[derive(Clone, Copy, Debug, PartialEq, Eq)]
pub enum Region {
    /// The cartridge windows, 0x0000 to 0x7FFF and 0xA000 to 0xBFFF.
    Cartridge,
    /// Video memory, 0x8000 to 0x9FFF.
    Video,
    /// Work memory, 0xC000 to 0xDFFF.
    Work,
    /// The echo of work memory, 0xE000 to 0xFDFF.
    Echo,
    /// High memory, 0xFF80 to 0xFFFE.
    High,
    /// Everything else: reads give zero and writes are dropped.
    Unmapped,
}

/// The first address of work memory.
pub const WORK_START: u16 = 0xC000;

/// The first address of the echo of work memory.
pub const ECHO_START: u16 = 0xE000;

/// The first address of high memory.
pub const HIGH_START: u16 = 0xFF80;

/// The device that `addr` belongs to.
pub open spec fn region(addr: u16) -> Region {
    if addr <= 0x7FFF {
        Region::Cartridge
    } else if addr <= 0x9FFF {
        Region::Video
    } else if addr <= 0xBFFF {
        Region::Cartridge
    } else if addr <= 0xDFFF {
        Region::Work
    } else if addr <= 0xFDFF {
        Region::Echo
    } else if HIGH_START <= addr <= 0xFFFE {
        Region::High
    } else {
        Region::Unmapped
    }
}

/// Whether a byte written at `addr` is kept by the console's own memory, so
/// that a later read at `addr` gives it back.
pub open spec fn backed(addr: u16) -> bool {
    region(addr) is Work || region(addr) is Echo || region(addr) is High
}

/// What the bus is to the processor: the bank controller, the two banks of
/// internal memory, and the interrupt-enable register.
pub struct BusState {
    pub mbc: MbcState,
    pub work: Seq<u8>,
    pub high: Seq<u8>,
    pub ie: u8,
}

impl BusState {
    /// Both banks have their full size, and so has the controller's RAM.
    pub open spec fn wf(self) -> bool {
        &&& self.mbc.wf()
        &&& self.work.len() == BANK_SIZE
        &&& self.high.len() == BANK_SIZE
    }

    /// The byte read at `addr`.
    pub open spec fn read(self, addr: u16) -> Result<u8, Fault> {
        match region(addr) {
            Region::Cartridge => self.mbc.read(addr),
            Region::Video => Err(Fault::Unimplemented),
            Region::Work => Ok(self.work[addr - WORK_START]),
            Region::Echo => Ok(self.work[addr - ECHO_START]),
            Region::High => Ok(self.high[addr - HIGH_START]),
            Region::Unmapped => Ok(0),
        }
    }

    /// The word read at `addr`: its low byte is the byte at `addr`, its high
    /// byte the one at the next address, which after 0xFFFF is 0x0000.
    pub open spec fn read_word(self, addr: u16) -> Result<u16, Fault> {
        match self.read(addr) {
            Err(fault) => Err(fault),
            Ok(low) => match self.read(next(addr)) {
                Err(fault) => Err(fault),
                Ok(high) => Ok(word(high, low)),
            },
        }
    }

    /// The fault that a write at `addr` raises, whatever is written.
    pub open spec fn write_fault(self, addr: u16) -> Option<Fault> {
        match region(addr) {
            Region::Cartridge => self.mbc.write_fault(addr),
            Region::Video => Some(Fault::Unimplemented),
            _ => None,
        }
    }

    /// The bus after `val` was stored at `addr`, where a write there raises
    /// no fault. Outside the cartridge and the internal memory nothing is
    /// stored.
    pub open spec fn put(self, addr: u16, val: u8) -> BusState {
        match region(addr) {
            Region::Cartridge => BusState { mbc: self.mbc.put(addr, val), ..self },
            Region::Work => BusState { work: self.work.update(addr - WORK_START, val), ..self },
            Region::Echo => BusState { work: self.work.update(addr - ECHO_START, val), ..self },
            Region::High => BusState { high: self.high.update(addr - HIGH_START, val), ..self },
            _ => self,
        }
    }

    /// The outcome of writing `val` at `addr`.
    pub open spec fn write(self, addr: u16, val: u8) -> Result<BusState, Fault> {
        match self.write_fault(addr) {
            Some(fault) => Err(fault),
            None => Ok(self.put(addr, val)),
        }
    }

    /// The outcome of writing the word `val` at `addr`: its low byte goes to
    /// `addr` and its high byte to the next address, or, if either write
    /// raises a fault, nothing is written at all.
    pub open spec fn write_word(self, addr: u16, val: u16) -> Result<BusState, Fault> {
        match self.write_fault(addr) {
            Some(fault) => Err(fault),
            None => match self.write_fault(next(addr)) {
                Some(fault) => Err(fault),
                None => Ok(self.put(addr, low_byte(val)).put(next(addr), high_byte(val))),
            },
        }
    }
}

/// A word written where the console's own memory keeps both of its bytes is
/// the word read there afterwards; its low byte is then at the address it was
/// written to, and its high byte at the next.
pub proof fn lemma_word_round_trip(bus: BusState, addr: u16, val: u16)
    requires
        bus.wf(),
        backed(addr),
        backed(next(addr)),
    ensures
        bus.write_word(addr, val) is Ok,
        bus.write_word(addr, val)->Ok_0.wf(),
        bus.write_word(addr, val)->Ok_0.read_word(addr) == Ok::<u16, Fault>(val),
        bus.write_word(addr, val)->Ok_0.read(addr) == Ok::<u8, Fault>(low_byte(val)),
        bus.write_word(addr, val)->Ok_0.read(next(addr)) == Ok::<u8, Fault>(high_byte(val)),
{
}

/// The echo region mirrors work memory: a byte written `offset` bytes into
/// either one is read `offset` bytes into the other.
pub proof fn lemma_echo(bus: BusState, offset: u16, val: u8)
    requires
        bus.wf(),
        offset < 0x1E00,
    ensures
        bus.write((WORK_START + offset) as u16, val) is Ok,
        bus.write((WORK_START + offset) as u16, val)->Ok_0.read((ECHO_START + offset) as u16)
            == Ok::<u8, Fault>(val),
        bus.write((ECHO_START + offset) as u16, val) is Ok,
        bus.write((ECHO_START + offset) as u16, val)->Ok_0.read((WORK_START + offset) as u16)
            == Ok::<u8, Fault>(val),
{
}

/// The bus of the console.
pub struct Bus {
    pub mbc: Mbc,
    pub ram: Ram,
    pub ie: u8,
}

impl View for Bus {
    type V = BusState;

    open spec fn view(&self) -> BusState {
        BusState { mbc: self.mbc@, work: self.ram.work@, high: self.ram.high@, ie: self.ie }
    }
}

impl Bus {
    /// A bus over the bank controller `mbc`, with the internal memory and the
    /// interrupt-enable register cleared.
    pub fn new(mbc: Mbc) -> (bus: Bus)
        ensures
            bus@ == (BusState {
                mbc: mbc@,
                work: zeros(BANK_SIZE as nat),
                high: zeros(BANK_SIZE as nat),
                ie: 0,
            }),
    {
        let ram = Ram::new();
        Bus { mbc, ram, ie: 0 }
    }

    /// The view of a bus is always well formed.
    pub proof fn view_is_wf(&self)
        ensures
            self@.wf(),
    {
        self.mbc.view_is_wf();
    }

    /// The device that `addr` belongs to.
    pub fn route(addr: u16) -> (at: Region)
        ensures
            at == region(addr),
    {
        match addr {
            0x0000..=0x7FFF => Region::Cartridge,
            0xA000..=0xBFFF => Region::Cartridge,
            0x8000..=0x9FFF => Region::Video,
            0xC000..=0xDFFF => Region::Work,
            0xE000..=0xFDFF => Region::Echo,
            0xFF80..=0xFFFE => Region::High,
            0xFEA0..=0xFEFF => Region::Unmapped,
            _ => Region::Unmapped,
        }
    }

    /// Reads the word at `addr`, low byte first.
    pub fn read_word(&self, addr: u16) -> (r: Result<u16, Fault>)
        ensures
            r == self@.read_word(addr),
    {
        let low = self.read_byte(addr)?;
        let high = self.read_byte(addr.wrapping_add(1))?;
        proof {
            lemma_word_join(high, low, 0);
        }
        Ok(((high as u16) << 8) | (low as u16))
    }

    /// Reads the byte at `addr`.
    pub fn read_byte(&self, addr: u16) -> (r: Result<u8, Fault>)
        ensures
            r == self@.read(addr),
    {
        match Self::route(addr) {
            Region::Cartridge => self.mbc.read(addr),
            Region::Video => Err(Fault::Unimplemented),
            Region::Work => Ok(self.ram.work[(addr - WORK_START) as usize]),
            Region::Echo => Ok(self.ram.work[(addr - ECHO_START) as usize]),
            Region::High => Ok(self.ram.high[(addr - HIGH_START) as usize]),
            Region::Unmapped => Ok(0),
        }
    }

    /// The fault that a write at `addr` would raise.
    pub fn write_fault(&self, addr: u16) -> (fault: Option<Fault>)
        ensures
            fault == self@.write_fault(addr),
    {
        match Self::route(addr) {
            Region::Cartridge => self.mbc.write_fault(addr),
            Region::Video => Some(Fault::Unimplemented),
            _ => None,
        }
    }

    /// Writes the word `val` at `addr`, low byte first, or nothing at all if
    /// either byte cannot be written.
    pub fn write_word(&mut self, addr: u16, val: u16) -> (r: Result<(), Fault>)
        ensures
            settled(old(self)@, final(self)@, r, old(self)@.write_word(addr, val)),
    {
        let low = (val & 0xFF) as u8;
        let high = (val >> 8) as u8;
        proof {
            lemma_word_halves(val);
        }
        if let Some(fault) = self.write_fault(addr) {
            return Err(fault);
        }
        if let Some(fault) = self.write_fault(addr.wrapping_add(1)) {
            return Err(fault);
        }
        self.write_byte(addr, low)?;
        self.write_byte(addr.wrapping_add(1), high)
    }

    /// Writes `val` at `addr`.
    pub fn write_byte(&mut self, addr: u16, val: u8) -> (r: Result<(), Fault>)
        ensures
            settled(old(self)@, final(self)@, r, old(self)@.write(addr, val)),
    {
        match Self::route(addr) {
            Region::Cartridge => self.mbc.write(addr, val),
            Region::Video => Err(Fault::Unimplemented),
            Region::Work => {
                self.ram.work[(addr - WORK_START) as usize] = val;
                Ok(())
            },
            Region::Echo => {
                self.ram.work[(addr - ECHO_START) as usize] = val;
                Ok(())
            },
            Region::High => {
                self.ram.high[(addr - HIGH_START) as usize] = val;
                Ok(())
            },
            Region::Unmapped => Ok(()),
        }
    }
}

} // verus!
