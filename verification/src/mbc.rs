//! Memory bank controllers: the logic on a cartridge that answers the
//! processor's accesses to the cartridge windows of the address space.
use vstd::prelude::*;
use crate::fault::{settled, Fault};
use crate::rom::{zeros, CartridgeType, Rom, RomError};

verus! {

/// Bytes of RAM beside a plain ROM.
pub const ROM_ONLY_RAM_SIZE: usize = 8192;

/// Bytes of RAM on the first bank controller.
pub const MBC1_RAM_SIZE: usize = 32768;

/// The last address a bank controller answers reads for.
pub const CARTRIDGE_END: u16 = 0xBFFF;

/// The first address of the cartridge RAM window.
pub const RAM_WINDOW_START: u16 = 0xA000;

/// The bank controllers that exist.
#[derive(Clone, Copy, Debug, PartialEq, Eq)]
pub enum MbcKind {
    RomOnly,
    Mbc1,
}

/// The byte of `image` at the offset `addr`, for an address up to the end of
/// the cartridge windows that the image reaches.
pub open spec fn image_byte(image: Seq<u8>, addr: u16) -> Result<u8, Fault> {
    if addr > CARTRIDGE_END {
        Err(Fault::OutsideCartridge)
    } else if addr >= image.len() {
        Err(Fault::BeyondImage)
    } else {
        Ok(image[addr as int])
    }
}

impl MbcKind {
    /// The bank controller that serves the cartridge type with the header
    /// byte `code`: one exists for the plain ROM and for the first bank
    /// controller.
    pub open spec fn serving(code: u8) -> Option<MbcKind> {
        if code == 0x00 {
            Some(MbcKind::RomOnly)
        } else if code == 0x01 {
            Some(MbcKind::Mbc1)
        } else {
            None
        }
    }

    /// The bytes of RAM that a controller of this kind has.
    pub open spec fn ram_size(self) -> nat {
        match self {
            MbcKind::RomOnly => ROM_ONLY_RAM_SIZE as nat,
            MbcKind::Mbc1 => MBC1_RAM_SIZE as nat,
        }
    }
}

/// What a bank controller is to the bus: its kind, the cartridge image, and
/// the contents of its RAM.
pub struct MbcState {
    pub kind: MbcKind,
    pub image: Seq<u8>,
    pub ram: Seq<u8>,
}

impl MbcState {
    /// The RAM is as large as the controller's kind makes it.
    pub open spec fn wf(self) -> bool {
        self.ram.len() == self.kind.ram_size()
    }

    /// A controller of the kind `kind` that has just taken over the image
    /// `image`: its RAM is cleared.
    pub open spec fn fresh(kind: MbcKind, image: Seq<u8>) -> MbcState {
        MbcState { kind, image, ram: zeros(kind.ram_size()) }
    }

    /// The byte read at `addr`: the image's byte at that offset, for an
    /// address up to the end of the cartridge windows that the image reaches.
    pub open spec fn read(self, addr: u16) -> Result<u8, Fault> {
        image_byte(self.image, addr)
    }

    /// The fault that a write at `addr` raises, whatever is written: a plain
    /// ROM takes no write, and the first bank controller takes one in its RAM
    /// window only.
    pub open spec fn write_fault(self, addr: u16) -> Option<Fault> {
        match self.kind {
            MbcKind::RomOnly => Some(Fault::ReadOnly),
            MbcKind::Mbc1 => if RAM_WINDOW_START <= addr <= CARTRIDGE_END {
                None
            } else {
                Some(Fault::OutsideCartridge)
            },
        }
    }

    /// The controller after `val` was stored at `addr` of the RAM window.
    pub open spec fn put(self, addr: u16, val: u8) -> MbcState {
        MbcState { ram: self.ram.update(addr - RAM_WINDOW_START, val), ..self }
    }

    /// The outcome of writing `val` at `addr`.
    pub open spec fn write(self, addr: u16, val: u8) -> Result<MbcState, Fault> {
        match self.write_fault(addr) {
            Some(fault) => Err(fault),
            None => Ok(self.put(addr, val)),
        }
    }
}

/// A cartridge whose ROM is mapped as it is, with no banks to switch.
pub struct RomOnly {
    rom: Rom,
    ram: [u8; ROM_ONLY_RAM_SIZE],
}

impl View for RomOnly {
    type V = MbcState;

    closed spec fn view(&self) -> MbcState {
        MbcState { kind: MbcKind::RomOnly, image: self.rom.value@, ram: self.ram@ }
    }
}

impl RomOnly {
    /// Takes the cartridge over, with its RAM cleared.
    pub fn new(rom: Rom) -> (made: RomOnly)
        ensures
            made@ == MbcState::fresh(MbcKind::RomOnly, rom.value@),
    {
        let made = RomOnly { rom, ram: [0; ROM_ONLY_RAM_SIZE] };
        assert(made.ram@ =~= zeros(ROM_ONLY_RAM_SIZE as nat));
        made
    }

    /// A controller of this type is always one of the plain kind, with RAM of
    /// the plain size.
    pub proof fn view_is_wf(&self)
        ensures
            self@.kind == MbcKind::RomOnly,
            self@.wf(),
    {
    }

    /// Reads the byte at `addr`.
    pub fn read(&self, addr: u16) -> (r: Result<u8, Fault>)
        ensures
            r == self@.read(addr),
    {
        read_image(&self.rom.value, addr)
    }

    /// Refuses the write: there is nothing to write to.
    #[allow(unused_variables)]
    pub fn write(&mut self, addr: u16, val: u8) -> (r: Result<(), Fault>)
        ensures
            settled(old(self)@, final(self)@, r, old(self)@.write(addr, val)),
            r == Err::<(), Fault>(Fault::ReadOnly),
    {
        Err(Fault::ReadOnly)
    }
}

/// A cartridge with the first bank controller. Its banks are not switched
/// yet: reads see the image as it is, and writes reach the RAM.
pub struct Mbc1 {
    rom: Rom,
    ram: [u8; MBC1_RAM_SIZE],
}

impl View for Mbc1 {
    type V = MbcState;

    closed spec fn view(&self) -> MbcState {
        MbcState { kind: MbcKind::Mbc1, image: self.rom.value@, ram: self.ram@ }
    }
}

impl Mbc1 {
    /// Takes the cartridge over, with its RAM cleared.
    pub fn new(rom: Rom) -> (made: Mbc1)
        ensures
            made@ == MbcState::fresh(MbcKind::Mbc1, rom.value@),
    {
        let made = Mbc1 { rom, ram: [0; MBC1_RAM_SIZE] };
        assert(made.ram@ =~= zeros(MBC1_RAM_SIZE as nat));
        made
    }

    /// A controller of this type is always one of the first kind, with RAM of
    /// that kind's size.
    pub proof fn view_is_wf(&self)
        ensures
            self@.kind == MbcKind::Mbc1,
            self@.wf(),
    {
    }

    /// Reads the byte at `addr`.
    pub fn read(&self, addr: u16) -> (r: Result<u8, Fault>)
        ensures
            r == self@.read(addr),
    {
        read_image(&self.rom.value, addr)
    }

    /// Stores `val` at `addr` of the RAM window, and refuses every other
    /// address.
    pub fn write(&mut self, addr: u16, val: u8) -> (r: Result<(), Fault>)
        ensures
            settled(old(self)@, final(self)@, r, old(self)@.write(addr, val)),
    {
        if RAM_WINDOW_START <= addr && addr <= CARTRIDGE_END {
            let at: usize = (addr - RAM_WINDOW_START) as usize;
            self.ram[at] = val;
            Ok(())
        } else {
            Err(Fault::OutsideCartridge)
        }
    }
}

/// The bank controller of a cartridge, whichever kind it is.
pub enum Mbc {
    RomOnly(RomOnly),
    Mbc1(Mbc1),
}

impl View for Mbc {
    type V = MbcState;

    open spec fn view(&self) -> MbcState {
        match self {
            Mbc::RomOnly(inner) => inner@,
            Mbc::Mbc1(inner) => inner@,
        }
    }
}

impl Mbc {
    /// The kind in the view is the variant, and the RAM has that kind's size.
    pub proof fn view_is_wf(&self)
        ensures
            self@.wf(),
            self@.kind == MbcKind::RomOnly <==> self is RomOnly,
            self@.kind == MbcKind::Mbc1 <==> self is Mbc1,
    {
        match self {
            Mbc::RomOnly(inner) => inner.view_is_wf(),
            Mbc::Mbc1(inner) => inner.view_is_wf(),
        }
    }

    /// Reads the byte at `addr`.
    pub fn read(&self, addr: u16) -> (r: Result<u8, Fault>)
        ensures
            r == self@.read(addr),
    {
        match self {
            Mbc::RomOnly(inner) => inner.read(addr),
            Mbc::Mbc1(inner) => inner.read(addr),
        }
    }

    /// The fault that a write at `addr` would raise.
    pub fn write_fault(&self, addr: u16) -> (fault: Option<Fault>)
        ensures
            fault == self@.write_fault(addr),
    {
        proof {
            self.view_is_wf();
        }
        match self {
            Mbc::RomOnly(_) => Some(Fault::ReadOnly),
            Mbc::Mbc1(_) => if RAM_WINDOW_START <= addr && addr <= CARTRIDGE_END {
                None
            } else {
                Some(Fault::OutsideCartridge)
            },
        }
    }

    /// Writes `val` at `addr`, if the controller takes a write there.
    pub fn write(&mut self, addr: u16, val: u8) -> (r: Result<(), Fault>)
        ensures
            settled(old(self)@, final(self)@, r, old(self)@.write(addr, val)),
    {
        match self {
            Mbc::RomOnly(inner) => inner.write(addr, val),
            Mbc::Mbc1(inner) => inner.write(addr, val),
        }
    }
}

/// Picks the bank controller that the cartridge's header asks for, and hands
/// the cartridge to it. Cartridge types other than the plain ROM and the
/// first bank controller are turned down.
pub fn new_mbc(rom: Rom) -> (made: Result<Mbc, RomError>)
    ensures
        match MbcKind::serving(rom.cartridge_type.code()) {
            Some(kind) => made is Ok && made->Ok_0@ == MbcState::fresh(kind, rom.value@),
            None => made is Err && made->Err_0 == RomError::UnsupportedCartridgeType(
                rom.cartridge_type,
            ),
        },
{
    match rom.cartridge_type {
        CartridgeType::Mbc1 => Ok(Mbc::Mbc1(Mbc1::new(rom))),
        CartridgeType::RomOnly => Ok(Mbc::RomOnly(RomOnly::new(rom))),
        other => Err(RomError::UnsupportedCartridgeType(other)),
    }
}

/// Reads the byte of `image` at the offset `addr`, for an address in the
/// range that bank controllers answer.
fn read_image(image: &Vec<u8>, addr: u16) -> (r: Result<u8, Fault>)
    ensures
        r == image_byte(image@, addr),
{
    if addr > CARTRIDGE_END {
        Err(Fault::OutsideCartridge)
    } else if addr as usize >= image.len() {
        Err(Fault::BeyondImage)
    } else {
        Ok(image[addr as usize])
    }
}

} // verus!
