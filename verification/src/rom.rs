//! The cartridge image: its fixed-layout header, decoded into typed fields,
//! and the checks an image has to pass before anything is run from it.
use vstd::prelude::*;
use vstd::arithmetic::power2::{lemma2_to64, pow2};
use vstd::string::StringExecFns;
use crate::bits::lemma_nibbles;

verus! {

/// First byte of the entry point.
pub const ENTRY_POINT_START: usize = 0x0100;

/// Number of entry point bytes.
pub const ENTRY_POINT_LEN: usize = 4;

/// First byte of the logo.
pub const LOGO_START: usize = 0x0104;

/// Number of logo bytes.
pub const LOGO_LEN: usize = 48;

/// First byte of the title, which is also the first byte the header checksum covers.
pub const TITLE_START: usize = 0x0134;

/// Number of title bytes.
pub const TITLE_LEN: usize = 15;

/// Number of bytes kept for a manufacturer code.
pub const MANUFACTURER_CODE_LEN: usize = 4;

/// Offset of the colour-model flag.
pub const CGB_FLAG: usize = 0x0143;

/// First byte of the new licensee code.
pub const NEW_LICENSEE_CODE_START: usize = 0x0144;

/// Number of new licensee code bytes.
pub const NEW_LICENSEE_CODE_LEN: usize = 2;

/// Offset of the super-model flag.
pub const SGB_FLAG: usize = 0x0146;

/// Offset of the cartridge type.
pub const CARTRIDGE_TYPE: usize = 0x0147;

/// Offset of the ROM size code.
pub const ROM_SIZE: usize = 0x0148;

/// Offset of the RAM size code.
pub const RAM_SIZE: usize = 0x0149;

/// Offset of the destination code.
pub const DESTINATION_CODE: usize = 0x014A;

/// Offset of the old licensee code.
pub const OLD_LICENSEE_CODE: usize = 0x014B;

/// Offset of the mask ROM version number, the last byte the header checksum covers.
pub const MASK_ROM_VERSION_NUMBER: usize = 0x014C;

/// Offset of the header checksum.
pub const HEADER_CHECKSUM: usize = 0x014D;

/// First byte of the global checksum.
pub const GLOBAL_CHECKSUM_START: usize = 0x014E;

/// Number of global checksum bytes.
pub const GLOBAL_CHECKSUM_LEN: usize = 2;

/// Length of the shortest image that holds a whole header.
pub const HEADER_END: usize = 0x0150;

/// The hardware on a cartridge, as its header declares it.
#[derive(Clone, Copy, Debug, PartialEq, Eq)]
pub enum CartridgeType {
    RomOnly,
    Mbc1,
    Mbc1Ram,
    Mbc1RamBattery,
    Mbc2,
    Mbc2Battery,
    RomRam,
    RomRamBattery,
    Mmm01,
    Mmm01Ram,
    Mmm01RamBattery,
    Mbc3,
    Mbc3Ram,
    Mbc3RamBattery,
    Mbc5,
    Mbc5Ram,
    Mbc5RamBattery,
    Mbc5Rumble,
    Mbc5RumbleRam,
    Mbc5RumbleRamBattery,
    Mbc6,
    Mbc7SensorRumbleRamBattery,
    PocketCamera,
    BandaiTama5,
    HuC3,
    HuC1RamBattery,
}

impl CartridgeType {
    /// The header byte that stands for this cartridge type.
    pub open spec fn code(self) -> u8 {
        match self {
            CartridgeType::RomOnly => 0x00,
            CartridgeType::Mbc1 => 0x01,
            CartridgeType::Mbc1Ram => 0x02,
            CartridgeType::Mbc1RamBattery => 0x03,
            CartridgeType::Mbc2 => 0x05,
            CartridgeType::Mbc2Battery => 0x06,
            CartridgeType::RomRam => 0x08,
            CartridgeType::RomRamBattery => 0x09,
            CartridgeType::Mmm01 => 0x0b,
            CartridgeType::Mmm01Ram => 0x0c,
            CartridgeType::Mmm01RamBattery => 0x0d,
            CartridgeType::Mbc3 => 0x11,
            CartridgeType::Mbc3Ram => 0x12,
            CartridgeType::Mbc3RamBattery => 0x13,
            CartridgeType::Mbc5 => 0x19,
            CartridgeType::Mbc5Ram => 0x1a,
            CartridgeType::Mbc5RamBattery => 0x1b,
            CartridgeType::Mbc5Rumble => 0x1c,
            CartridgeType::Mbc5RumbleRam => 0x1d,
            CartridgeType::Mbc5RumbleRamBattery => 0x1e,
            CartridgeType::Mbc6 => 0x20,
            CartridgeType::Mbc7SensorRumbleRamBattery => 0x22,
            CartridgeType::PocketCamera => 0xfc,
            CartridgeType::BandaiTama5 => 0xfd,
            CartridgeType::HuC3 => 0xfe,
            CartridgeType::HuC1RamBattery => 0xff,
        }
    }

    /// Whether some cartridge type has the header byte `byte`.
    pub open spec fn known(byte: u8) -> bool {
        exists|t: CartridgeType| t.code() == byte
    }

    /// The cartridge type with the header byte `byte`, where one has it.
    pub open spec fn of(byte: u8) -> CartridgeType {
        choose|t: CartridgeType| t.code() == byte
    }

    /// The cartridge type that the header byte `byte` stands for, if there is one.
    pub fn from_u8(byte: u8) -> (found: Option<CartridgeType>)
        ensures
            match found {
                Some(t) => t.code() == byte,
                None => !Self::known(byte),
            },
    {
        match byte {
            0x00 => Some(CartridgeType::RomOnly),
            0x01 => Some(CartridgeType::Mbc1),
            0x02 => Some(CartridgeType::Mbc1Ram),
            0x03 => Some(CartridgeType::Mbc1RamBattery),
            0x05 => Some(CartridgeType::Mbc2),
            0x06 => Some(CartridgeType::Mbc2Battery),
            0x08 => Some(CartridgeType::RomRam),
            0x09 => Some(CartridgeType::RomRamBattery),
            0x0b => Some(CartridgeType::Mmm01),
            0x0c => Some(CartridgeType::Mmm01Ram),
            0x0d => Some(CartridgeType::Mmm01RamBattery),
            0x11 => Some(CartridgeType::Mbc3),
            0x12 => Some(CartridgeType::Mbc3Ram),
            0x13 => Some(CartridgeType::Mbc3RamBattery),
            0x19 => Some(CartridgeType::Mbc5),
            0x1a => Some(CartridgeType::Mbc5Ram),
            0x1b => Some(CartridgeType::Mbc5RamBattery),
            0x1c => Some(CartridgeType::Mbc5Rumble),
            0x1d => Some(CartridgeType::Mbc5RumbleRam),
            0x1e => Some(CartridgeType::Mbc5RumbleRamBattery),
            0x20 => Some(CartridgeType::Mbc6),
            0x22 => Some(CartridgeType::Mbc7SensorRumbleRamBattery),
            0xfc => Some(CartridgeType::PocketCamera),
            0xfd => Some(CartridgeType::BandaiTama5),
            0xfe => Some(CartridgeType::HuC3),
            0xff => Some(CartridgeType::HuC1RamBattery),
            _ => None,
        }
    }
}

/// No two cartridge types share a header byte.
pub proof fn lemma_code_is_unique(one: CartridgeType, other: CartridgeType)
    ensures
        one.code() == other.code() ==> one == other,
{
}

/// The market a cartridge was made for.
#[derive(Clone, Copy, Debug, PartialEq, Eq)]
pub enum DestinationCode {
    Japanese,
    NonJapanese,
}

impl DestinationCode {
    /// The header byte that stands for this destination.
    pub open spec fn code(self) -> u8 {
        match self {
            DestinationCode::Japanese => 0x00,
            DestinationCode::NonJapanese => 0x01,
        }
    }

    /// Whether some destination has the header byte `byte`.
    pub open spec fn known(byte: u8) -> bool {
        byte <= 1
    }

    /// The destination that the header byte `byte` stands for, if there is one.
    pub fn from_u8(byte: u8) -> (found: Option<DestinationCode>)
        ensures
            match found {
                Some(d) => d.code() == byte,
                None => !Self::known(byte),
            },
    {
        match byte {
            0x00 => Some(DestinationCode::Japanese),
            0x01 => Some(DestinationCode::NonJapanese),
            _ => None,
        }
    }
}

/// Why an image is no cartridge.
#[derive(Clone, Copy, Debug, PartialEq, Eq)]
pub enum RomError {
    /// The image ends before its header does.
    Truncated,
    /// The super-model flag holds this byte, which is neither 0x00 nor 0x03.
    UnknownSgbFlag(u8),
    /// No cartridge type has this byte.
    UnknownCartridgeType(u8),
    /// No ROM size has this byte.
    UnknownRomSize(u8),
    /// No RAM size has this byte.
    UnknownRamSize(u8),
    /// No destination has this byte.
    UnknownDestinationCode(u8),
    /// The header checksum that the image stores is not the checksum of its header.
    HeaderChecksum { stored: u8, computed: u8 },
    /// The image is not as long as its header says.
    SizeMismatch,
    /// The cartridge type is known, but no bank controller for it exists.
    UnsupportedCartridgeType(CartridgeType),
}

/// The colour-model flag: set by 0xC0 alone.
pub open spec fn cgb_flag_of(byte: u8) -> bool {
    byte == 0xC0
}

/// The super-model flag: clear for 0x00, set for 0x03, undefined for all else.
pub open spec fn sgb_flag_of(byte: u8) -> Option<bool> {
    if byte == 0x00 {
        Some(false)
    } else if byte == 0x03 {
        Some(true)
    } else {
        None
    }
}

/// The number of ROM bytes that a size code declares: 32 KiB doubled `byte`
/// times for the codes up to 8, and three odd sizes of a little over 1 MiB.
pub open spec fn rom_size_of(byte: u8) -> Option<nat> {
    if byte <= 8 {
        Some(32768 * pow2(byte as nat))
    } else if byte == 0x52 {
        Some(1153433)
    } else if byte == 0x53 {
        Some(1258291)
    } else if byte == 0x54 {
        Some(1572864)
    } else {
        None
    }
}

/// The number of cartridge RAM bytes that a size code declares.
pub open spec fn ram_size_of(byte: u8) -> Option<nat> {
    if byte == 0x00 {
        Some(0)
    } else if byte == 0x01 {
        Some(2048)
    } else if byte == 0x02 {
        Some(8192)
    } else if byte == 0x03 {
        Some(32768)
    } else if byte == 0x04 {
        Some(131072)
    } else if byte == 0x05 {
        Some(65536)
    } else {
        None
    }
}

/// The running checksum of `bytes`: it starts at zero, and each byte in turn
/// takes itself and one more away from it, modulo 256.
pub open spec fn checksum(bytes: Seq<u8>) -> u8
    decreases bytes.len(),
{
    if bytes.len() == 0 {
        0
    } else {
        ((checksum(bytes.drop_last()) - bytes.last() - 1) % 256) as u8
    }
}

/// The checksum of the header of `image`, from the title to the mask ROM
/// version number.
pub open spec fn header_checksum(image: Seq<u8>) -> u8
    recommends
        image.len() >= HEADER_END,
{
    checksum(image.subrange(TITLE_START as int, HEADER_CHECKSUM as int))
}

/// The first reason, in the order of the header's fields, for which `image`
/// is no cartridge; `None` when it is one.
pub open spec fn rejection(image: Seq<u8>) -> Option<RomError> {
    if image.len() < HEADER_END {
        Some(RomError::Truncated)
    } else if sgb_flag_of(image[SGB_FLAG as int]) is None {
        Some(RomError::UnknownSgbFlag(image[SGB_FLAG as int]))
    } else if !CartridgeType::known(image[CARTRIDGE_TYPE as int]) {
        Some(RomError::UnknownCartridgeType(image[CARTRIDGE_TYPE as int]))
    } else if rom_size_of(image[ROM_SIZE as int]) is None {
        Some(RomError::UnknownRomSize(image[ROM_SIZE as int]))
    } else if ram_size_of(image[RAM_SIZE as int]) is None {
        Some(RomError::UnknownRamSize(image[RAM_SIZE as int]))
    } else if !DestinationCode::known(image[DESTINATION_CODE as int]) {
        Some(RomError::UnknownDestinationCode(image[DESTINATION_CODE as int]))
    } else if image[HEADER_CHECKSUM as int] != header_checksum(image) {
        Some(
            RomError::HeaderChecksum {
                stored: image[HEADER_CHECKSUM as int],
                computed: header_checksum(image),
            },
        )
    } else if image.len() != rom_size_of(image[ROM_SIZE as int])->0 {
        Some(RomError::SizeMismatch)
    } else {
        None
    }
}

/// Whether everything about `image` but its stored header checksum is as a
/// cartridge needs it: the header is whole, its codes are known, and the image
/// is as long as the header says.
pub open spec fn sound_but_for_checksum(image: Seq<u8>) -> bool {
    &&& image.len() >= HEADER_END
    &&& sgb_flag_of(image[SGB_FLAG as int]) is Some
    &&& CartridgeType::known(image[CARTRIDGE_TYPE as int])
    &&& rom_size_of(image[ROM_SIZE as int]) == Some(image.len())
    &&& ram_size_of(image[RAM_SIZE as int]) is Some
    &&& DestinationCode::known(image[DESTINATION_CODE as int])
}

/// Where all else is sound, the stored header checksum decides: the image is
/// accepted if it is the checksum of the header, and is turned down for its
/// checksum if it is not.
pub proof fn lemma_checksum_decides(image: Seq<u8>)
    requires
        sound_but_for_checksum(image),
    ensures
        rejection(image) is None <==> image[HEADER_CHECKSUM as int] == header_checksum(image),
        image[HEADER_CHECKSUM as int] != header_checksum(image) ==> rejection(image) == Some(
            RomError::HeaderChecksum {
                stored: image[HEADER_CHECKSUM as int],
                computed: header_checksum(image),
            },
        ),
{
}

/// A cartridge: the fields of its header, and the image they were read from.
pub struct Rom {
    pub entry_point: [u8; ENTRY_POINT_LEN],
    pub logo: [u8; LOGO_LEN],
    pub title: [u8; TITLE_LEN],
    /// Kept at zero: the title covers the bytes where later cartridges hold a
    /// manufacturer code.
    pub manufacturer_code: [u8; MANUFACTURER_CODE_LEN],
    pub cgb_flag: bool,
    pub new_licensee_code: [u8; NEW_LICENSEE_CODE_LEN],
    pub sgb_flag: bool,
    pub cartridge_type: CartridgeType,
    pub rom_size: usize,
    pub ram_size: usize,
    pub destination_code: DestinationCode,
    pub old_licensee_code: u8,
    pub mask_rom_version_number: u8,
    pub header_checksum: u8,
    pub global_checksum: [u8; GLOBAL_CHECKSUM_LEN],
    /// The whole image, header included.
    pub value: Vec<u8>,
}

/// A sequence of `len` zero bytes.
pub open spec fn zeros(len: nat) -> Seq<u8> {
    Seq::new(len, |i: int| 0u8)
}

impl Rom {
    /// Whether every field of this cartridge is what the header of `image`
    /// says, and `image` is the image it keeps.
    pub open spec fn holds(self, image: Seq<u8>) -> bool {
        &&& self.value@ == image
        &&& self.entry_point@ == image.subrange(
            ENTRY_POINT_START as int,
            ENTRY_POINT_START + ENTRY_POINT_LEN,
        )
        &&& self.logo@ == image.subrange(LOGO_START as int, LOGO_START + LOGO_LEN)
        &&& self.title@ == image.subrange(TITLE_START as int, TITLE_START + TITLE_LEN)
        &&& self.manufacturer_code@ == zeros(MANUFACTURER_CODE_LEN as nat)
        &&& self.cgb_flag == cgb_flag_of(image[CGB_FLAG as int])
        &&& self.new_licensee_code@ == image.subrange(
            NEW_LICENSEE_CODE_START as int,
            NEW_LICENSEE_CODE_START + NEW_LICENSEE_CODE_LEN,
        )
        &&& Some(self.sgb_flag) == sgb_flag_of(image[SGB_FLAG as int])
        &&& self.cartridge_type.code() == image[CARTRIDGE_TYPE as int]
        &&& Some(self.rom_size as nat) == rom_size_of(image[ROM_SIZE as int])
        &&& Some(self.ram_size as nat) == ram_size_of(image[RAM_SIZE as int])
        &&& self.destination_code.code() == image[DESTINATION_CODE as int]
        &&& self.old_licensee_code == image[OLD_LICENSEE_CODE as int]
        &&& self.mask_rom_version_number == image[MASK_ROM_VERSION_NUMBER as int]
        &&& self.header_checksum == image[HEADER_CHECKSUM as int]
        &&& self.global_checksum@ == image.subrange(
            GLOBAL_CHECKSUM_START as int,
            GLOBAL_CHECKSUM_START + GLOBAL_CHECKSUM_LEN,
        )
    }

    /// Decodes the header of `image` and checks it: the image is accepted
    /// exactly when `rejection` finds no fault in it, and is then kept whole
    /// beside its decoded fields.
    pub fn new(image: Vec<u8>) -> (made: Result<Rom, RomError>)
        ensures
            match made {
                Ok(rom) => rejection(image@) is None && rom.holds(image@),
                Err(e) => rejection(image@) == Some(e),
            },
    {
        if image.len() < HEADER_END {
            return Err(RomError::Truncated);
        }
        let sgb_flag = match decode_sgb_flag(image[SGB_FLAG]) {
            Some(flag) => flag,
            None => {
                return Err(RomError::UnknownSgbFlag(image[SGB_FLAG]));
            },
        };
        let cartridge_type = match CartridgeType::from_u8(image[CARTRIDGE_TYPE]) {
            Some(t) => t,
            None => {
                return Err(RomError::UnknownCartridgeType(image[CARTRIDGE_TYPE]));
            },
        };
        let rom_size = match decode_rom_size(image[ROM_SIZE]) {
            Some(size) => size,
            None => {
                return Err(RomError::UnknownRomSize(image[ROM_SIZE]));
            },
        };
        let ram_size = match decode_ram_size(image[RAM_SIZE]) {
            Some(size) => size,
            None => {
                return Err(RomError::UnknownRamSize(image[RAM_SIZE]));
            },
        };
        let destination_code = match DestinationCode::from_u8(image[DESTINATION_CODE]) {
            Some(d) => d,
            None => {
                return Err(RomError::UnknownDestinationCode(image[DESTINATION_CODE]));
            },
        };
        let stored = image[HEADER_CHECKSUM];
        let computed = compute_header_checksum(&image);
        if stored != computed {
            return Err(RomError::HeaderChecksum { stored, computed });
        }
        if image.len() != rom_size {
            return Err(RomError::SizeMismatch);
        }
        let rom = Rom {
            entry_point: take(&image, ENTRY_POINT_START),
            logo: take(&image, LOGO_START),
            title: take(&image, TITLE_START),
            manufacturer_code: [0; MANUFACTURER_CODE_LEN],
            cgb_flag: image[CGB_FLAG] == 0xC0,
            new_licensee_code: take(&image, NEW_LICENSEE_CODE_START),
            sgb_flag,
            cartridge_type,
            rom_size,
            ram_size,
            destination_code,
            old_licensee_code: image[OLD_LICENSEE_CODE],
            mask_rom_version_number: image[MASK_ROM_VERSION_NUMBER],
            header_checksum: stored,
            global_checksum: take(&image, GLOBAL_CHECKSUM_START),
            value: image,
        };
        assert(rom.manufacturer_code@ =~= zeros(MANUFACTURER_CODE_LEN as nat));
        Ok(rom)
    }
}

impl Default for Rom {
    /// A cartridge with nothing in it: every field zero or clear, the first
    /// variant of each enumeration, and no image.
    fn default() -> (rom: Rom)
        ensures
            rom.entry_point@ == zeros(ENTRY_POINT_LEN as nat),
            rom.logo@ == zeros(LOGO_LEN as nat),
            rom.title@ == zeros(TITLE_LEN as nat),
            rom.manufacturer_code@ == zeros(MANUFACTURER_CODE_LEN as nat),
            !rom.cgb_flag,
            rom.new_licensee_code@ == zeros(NEW_LICENSEE_CODE_LEN as nat),
            !rom.sgb_flag,
            rom.cartridge_type == CartridgeType::RomOnly,
            rom.rom_size == 0,
            rom.ram_size == 0,
            rom.destination_code == DestinationCode::Japanese,
            rom.old_licensee_code == 0,
            rom.mask_rom_version_number == 0,
            rom.header_checksum == 0,
            rom.global_checksum@ == zeros(GLOBAL_CHECKSUM_LEN as nat),
            rom.value@ == Seq::<u8>::empty(),
    {
        let rom = Rom {
            entry_point: [0; ENTRY_POINT_LEN],
            logo: [0; LOGO_LEN],
            title: [0; TITLE_LEN],
            manufacturer_code: [0; MANUFACTURER_CODE_LEN],
            cgb_flag: false,
            new_licensee_code: [0; NEW_LICENSEE_CODE_LEN],
            sgb_flag: false,
            cartridge_type: CartridgeType::RomOnly,
            rom_size: 0,
            ram_size: 0,
            destination_code: DestinationCode::Japanese,
            old_licensee_code: 0,
            mask_rom_version_number: 0,
            header_checksum: 0,
            global_checksum: [0; GLOBAL_CHECKSUM_LEN],
            value: Vec::new(),
        };
        assert(rom.entry_point@ =~= zeros(ENTRY_POINT_LEN as nat));
        assert(rom.logo@ =~= zeros(LOGO_LEN as nat));
        assert(rom.title@ =~= zeros(TITLE_LEN as nat));
        assert(rom.manufacturer_code@ =~= zeros(MANUFACTURER_CODE_LEN as nat));
        assert(rom.new_licensee_code@ =~= zeros(NEW_LICENSEE_CODE_LEN as nat));
        assert(rom.global_checksum@ =~= zeros(GLOBAL_CHECKSUM_LEN as nat));
        rom
    }
}

/// Decodes the super-model flag.
pub fn decode_sgb_flag(byte: u8) -> (flag: Option<bool>)
    ensures
        flag == sgb_flag_of(byte),
{
    match byte {
        0x00 => Some(false),
        0x03 => Some(true),
        _ => None,
    }
}

/// Decodes the ROM size code.
pub fn decode_rom_size(byte: u8) -> (size: Option<usize>)
    ensures
        match size {
            Some(n) => rom_size_of(byte) == Some(n as nat),
            None => rom_size_of(byte) is None,
        },
{
    proof {
        lemma2_to64();
    }
    match byte {
        0x00 => Some(0x0000_8000),
        0x01 => Some(0x0001_0000),
        0x02 => Some(0x0002_0000),
        0x03 => Some(0x0004_0000),
        0x04 => Some(0x0008_0000),
        0x05 => Some(0x0010_0000),
        0x06 => Some(0x0020_0000),
        0x07 => Some(0x0040_0000),
        0x08 => Some(0x0080_0000),
        0x52 => Some(1153433),
        0x53 => Some(1258291),
        0x54 => Some(1572864),
        _ => None,
    }
}

/// Decodes the RAM size code.
pub fn decode_ram_size(byte: u8) -> (size: Option<usize>)
    ensures
        match size {
            Some(n) => ram_size_of(byte) == Some(n as nat),
            None => ram_size_of(byte) is None,
        },
{
    match byte {
        0x00 => Some(0),
        0x01 => Some(0x0800),
        0x02 => Some(0x2000),
        0x03 => Some(0x8000),
        0x04 => Some(0x0002_0000),
        0x05 => Some(0x0001_0000),
        _ => None,
    }
}

/// Computes the checksum of the header of `image`.
pub fn compute_header_checksum(image: &Vec<u8>) -> (sum: u8)
    requires
        image@.len() >= HEADER_END,
    ensures
        sum == header_checksum(image@),
{
    let ghost covered = image@.subrange(TITLE_START as int, HEADER_CHECKSUM as int);
    let mut sum: u8 = 0;
    let mut at: usize = TITLE_START;
    while at < HEADER_CHECKSUM
        invariant
            TITLE_START <= at <= HEADER_CHECKSUM,
            image@.len() >= HEADER_END,
            covered == image@.subrange(TITLE_START as int, HEADER_CHECKSUM as int),
            sum == checksum(covered.take(at - TITLE_START)),
        decreases HEADER_CHECKSUM - at,
    {
        let byte = image[at];
        proof {
            let next = covered.take(at + 1 - TITLE_START);
            assert(next.drop_last() =~= covered.take(at - TITLE_START));
            assert(next.last() == byte);
        }
        sum = sum.wrapping_sub(byte).wrapping_sub(1);
        at = at + 1;
    }
    assert(covered.take(HEADER_CHECKSUM - TITLE_START) =~= covered);
    sum
}

/// Copies the `N` bytes of `image` that start at `start`.
fn take<const N: usize>(image: &Vec<u8>, start: usize) -> (taken: [u8; N])
    requires
        start + N <= image@.len(),
    ensures
        taken@ == image@.subrange(start as int, start + N),
{
    let len = image.len();
    let mut taken: [u8; N] = [0; N];
    let mut i: usize = 0;
    while i < N
        invariant
            i <= N,
            start + N <= len,
            len == image@.len(),
            forall|k: int| 0 <= k < i ==> taken@[k] == image@[start + k],
        decreases N - i,
    {
        taken[i] = image[start + i];
        i = i + 1;
    }
    assert(taken@ =~= image@.subrange(start as int, start + N));
    taken
}

/// The upper-case hexadecimal digit for `n`, which is below 16.
pub open spec fn hex_digit(n: u8) -> char {
    if n == 0 {
        '0'
    } else if n == 1 {
        '1'
    } else if n == 2 {
        '2'
    } else if n == 3 {
        '3'
    } else if n == 4 {
        '4'
    } else if n == 5 {
        '5'
    } else if n == 6 {
        '6'
    } else if n == 7 {
        '7'
    } else if n == 8 {
        '8'
    } else if n == 9 {
        '9'
    } else if n == 10 {
        'A'
    } else if n == 11 {
        'B'
    } else if n == 12 {
        'C'
    } else if n == 13 {
        'D'
    } else if n == 14 {
        'E'
    } else {
        'F'
    }
}

/// The text for `bytes`: for each byte its two hexadecimal digits, the high
/// one first, and a space.
pub open spec fn hex_text(bytes: Seq<u8>) -> Seq<char>
    decreases bytes.len(),
{
    if bytes.len() == 0 {
        Seq::empty()
    } else {
        hex_text(bytes.drop_last()) + seq![
            hex_digit(bytes.last() / 16),
            hex_digit(bytes.last() % 16),
            ' ',
        ]
    }
}

/// The hexadecimal digit for `n` as a string of one character.
fn hex_digit_str(n: u8) -> (digit: &'static str)
    requires
        n < 16,
    ensures
        digit@ == seq![hex_digit(n)],
{
    proof {
        reveal_strlit("0");
        reveal_strlit("1");
        reveal_strlit("2");
        reveal_strlit("3");
        reveal_strlit("4");
        reveal_strlit("5");
        reveal_strlit("6");
        reveal_strlit("7");
        reveal_strlit("8");
        reveal_strlit("9");
        reveal_strlit("A");
        reveal_strlit("B");
        reveal_strlit("C");
        reveal_strlit("D");
        reveal_strlit("E");
        reveal_strlit("F");
    }
    let digit = match n {
        0 => "0",
        1 => "1",
        2 => "2",
        3 => "3",
        4 => "4",
        5 => "5",
        6 => "6",
        7 => "7",
        8 => "8",
        9 => "9",
        10 => "A",
        11 => "B",
        12 => "C",
        13 => "D",
        14 => "E",
        _ => "F",
    };
    assert(digit@ =~= seq![hex_digit(n)]);
    digit
}

/// Writes `bytes` out in hexadecimal: two upper-case digits and a space for
/// each byte.
pub fn bytes_to_hex(bytes: &[u8]) -> (text: String)
    ensures
        text@ == hex_text(bytes@),
{
    let mut text = String::new();
    let mut i: usize = 0;
    while i < bytes.len()
        invariant
            i <= bytes.len(),
            text@ == hex_text(bytes@.take(i as int)),
        decreases bytes.len() - i,
    {
        let byte = bytes[i];
        proof {
            lemma_nibbles(byte);
            reveal_strlit(" ");
            let next = bytes@.take(i + 1);
            assert(next.drop_last() =~= bytes@.take(i as int));
            assert(next.last() == byte);
        }
        let high = hex_digit_str(byte >> 4);
        let low = hex_digit_str(byte & 0x0F);
        let ghost before = text@;
        text.append(high);
        text.append(low);
        text.append(" ");
        assert(text@ =~= before + seq![hex_digit(byte / 16), hex_digit(byte % 16), ' ']);
        i = i + 1;
    }
    assert(bytes@.take(bytes@.len() as int) =~= bytes@);
    text
}

} // verus!
