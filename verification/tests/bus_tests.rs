use gb::bus::{Bus, Region};
use gb::fault::Fault;
use gb::mbc::{Mbc, Mbc1, RomOnly};
use gb::ram::Ram;
use gb::rom::Rom;

fn bus_over_rom(image: Vec<u8>) -> Bus {
    let mut rom = Rom::default();
    rom.value = image;
    Bus::new(Mbc::RomOnly(RomOnly::new(rom)))
}

fn bus_over_mbc1(image: Vec<u8>) -> Bus {
    let mut rom = Rom::default();
    rom.value = image;
    Bus::new(Mbc::Mbc1(Mbc1::new(rom)))
}

#[test]
fn ram_starts_cleared() {
    let ram = Ram::new();
    assert_eq!(ram.work.len(), 8192);
    assert_eq!(ram.high.len(), 8192);
    assert!(ram.work.iter().all(|b| *b == 0));
    assert!(ram.high.iter().all(|b| *b == 0));
    let bus = bus_over_rom(vec![0; 32768]);
    assert_eq!(bus.ie, 0);
    assert_eq!(bus.read_byte(0xC000), Ok(0));
    assert_eq!(bus.read_byte(0xFF80), Ok(0));
}

#[test]
fn addresses_are_routed_by_range() {
    let table = [
        (0x0000u16, Region::Cartridge),
        (0x7FFF, Region::Cartridge),
        (0x8000, Region::Video),
        (0x9FFF, Region::Video),
        (0xA000, Region::Cartridge),
        (0xBFFF, Region::Cartridge),
        (0xC000, Region::Work),
        (0xDFFF, Region::Work),
        (0xE000, Region::Echo),
        (0xFDFF, Region::Echo),
        (0xFE00, Region::Unmapped),
        (0xFE9F, Region::Unmapped),
        (0xFEA0, Region::Unmapped),
        (0xFEFF, Region::Unmapped),
        (0xFF00, Region::Unmapped),
        (0xFF7F, Region::Unmapped),
        (0xFF80, Region::High),
        (0xFFFE, Region::High),
        (0xFFFF, Region::Unmapped),
    ];
    for (addr, region) in table {
        assert_eq!(Bus::route(addr), region, "address {:04X}", addr);
    }
}

#[test]
fn word_round_trip_in_work_ram() {
    let mut bus = bus_over_rom(vec![0; 32768]);
    for addr in [0xC000u16, 0xC123, 0xDFFE, 0xDFFF, 0xE000, 0xFDFE, 0xFF80, 0xFFFD] {
        assert_eq!(bus.write_word(addr, 0xBEEF), Ok(()));
        assert_eq!(bus.read_word(addr), Ok(0xBEEF));
        assert_eq!(bus.read_byte(addr), Ok(0xEF));
        assert_eq!(bus.read_byte(addr + 1), Ok(0xBE));
    }
}

#[test]
fn word_is_little_endian() {
    let mut bus = bus_over_rom(vec![0; 32768]);
    bus.write_byte(0xC010, 0x34).unwrap();
    bus.write_byte(0xC011, 0x12).unwrap();
    assert_eq!(bus.read_word(0xC010), Ok(0x1234));
}

#[test]
fn echo_mirrors_work_ram() {
    let mut bus = bus_over_rom(vec![0; 32768]);
    bus.write_byte(0xC005, 0xA7).unwrap();
    assert_eq!(bus.read_byte(0xE005), Ok(0xA7));
    bus.write_byte(0xE005, 0x3C).unwrap();
    assert_eq!(bus.read_byte(0xC005), Ok(0x3C));
    bus.write_byte(0xFDFF, 0x99).unwrap();
    assert_eq!(bus.read_byte(0xDDFF), Ok(0x99));
    assert_eq!(bus.ram.work[0x1DFF], 0x99);
}

#[test]
fn high_ram_is_offset_by_0xff80() {
    let mut bus = bus_over_rom(vec![0; 32768]);
    bus.write_byte(0xFF80, 0x01).unwrap();
    bus.write_byte(0xFFFE, 0x02).unwrap();
    assert_eq!(bus.ram.high[0], 0x01);
    assert_eq!(bus.ram.high[0x7E], 0x02);
    assert_eq!(bus.read_byte(0xFF80), Ok(0x01));
    assert_eq!(bus.read_byte(0xFFFE), Ok(0x02));
}

#[test]
fn video_memory_is_unimplemented() {
    let mut bus = bus_over_rom(vec![0; 32768]);
    for addr in [0x8000u16, 0x9000, 0x9FFF] {
        assert_eq!(bus.read_byte(addr), Err(Fault::Unimplemented));
        assert_eq!(bus.write_byte(addr, 1), Err(Fault::Unimplemented));
        assert_eq!(bus.write_fault(addr), Some(Fault::Unimplemented));
    }
}

#[test]
fn unmapped_addresses_read_zero_and_drop_writes() {
    let mut bus = bus_over_rom(vec![0; 32768]);
    for addr in [0xFE00u16, 0xFEA0, 0xFEFF, 0xFF00, 0xFF7F, 0xFFFF] {
        assert_eq!(bus.write_byte(addr, 0xAB), Ok(()));
        assert_eq!(bus.read_byte(addr), Ok(0));
    }
    assert_eq!(bus.ie, 0);
    assert!(bus.ram.work.iter().all(|b| *b == 0));
    assert!(bus.ram.high.iter().all(|b| *b == 0));
}

#[test]
fn cartridge_addresses_go_to_the_controller() {
    let mut image = vec![0u8; 65536];
    image[0x0100] = 0xC3;
    image[0xA000] = 0x55;
    let mut bus = bus_over_mbc1(image);
    assert_eq!(bus.read_byte(0x0100), Ok(0xC3));
    assert_eq!(bus.read_byte(0xA000), Ok(0x55));
    assert_eq!(bus.write_byte(0xA000, 0x66), Ok(()));
    assert_eq!(bus.write_byte(0x0100, 0x66), Err(Fault::OutsideCartridge));
    let mut bus = bus_over_rom(vec![7; 32768]);
    assert_eq!(bus.read_byte(0x7FFF), Ok(7));
    assert_eq!(bus.read_byte(0xA000), Err(Fault::BeyondImage));
    assert_eq!(bus.write_byte(0x0000, 1), Err(Fault::ReadOnly));
}

#[test]
fn word_write_is_all_or_nothing() {
    let mut bus = bus_over_mbc1(vec![0; 65536]);
    // low byte in the RAM window, high byte in work memory: both are written
    assert_eq!(bus.write_word(0xBFFF, 0xA1B2), Ok(()));
    assert_eq!(bus.read_byte(0xC000), Ok(0xA1));
    // low byte in work memory, high byte in the echo
    assert_eq!(bus.write_word(0xDFFF, 0x0102), Ok(()));
    assert_eq!(bus.read_byte(0xDFFF), Ok(0x02));
    assert_eq!(bus.read_byte(0xC000), Ok(0x01));
    // low byte in video memory: nothing is written
    assert_eq!(bus.write_word(0x9FFF, 0xC3D4), Err(Fault::Unimplemented));
    // low byte in the cartridge outside its RAM window
    assert_eq!(bus.write_word(0x7FFF, 0xC3D4), Err(Fault::OutsideCartridge));
    // low byte dropped at 0xFFFF, high byte refused at 0x0000: nothing is written
    assert_eq!(bus.write_word(0xFFFF, 0xC3D4), Err(Fault::OutsideCartridge));
    let mut bus = bus_over_rom(vec![0; 32768]);
    // low byte in high memory would be kept, but the high byte at 0xFFFF is
    // dropped: the write succeeds
    assert_eq!(bus.write_word(0xFFFE, 0x1234), Ok(()));
    assert_eq!(bus.read_byte(0xFFFE), Ok(0x34));
    // low byte in the echo, high byte refused by the read-only cartridge
    bus.write_byte(0xFDFF, 0x77).unwrap();
    assert_eq!(bus.write_word(0xFFFF, 0x1234), Err(Fault::ReadOnly));
    // low byte fine, high byte in video memory: the low byte is not written
    let mut bus = bus_over_mbc1(vec![0; 65536]);
    assert_eq!(bus.write_word(0x7FFF, 0x1234), Err(Fault::OutsideCartridge));
    bus.write_byte(0xBFFF, 0x01).unwrap();
    assert_eq!(bus.write_word(0x9FFF, 0x1234), Err(Fault::Unimplemented));
}

#[test]
fn word_write_leaves_the_low_byte_alone_when_the_high_byte_faults() {
    // 0xFFFE is kept by high memory; its successor 0xFFFF is unmapped, and
    // the one after, 0x0000, is the cartridge. A word at 0xFFFF therefore has
    // a low byte that is dropped and a high byte that faults.
    let mut bus = bus_over_rom(vec![0; 32768]);
    bus.write_byte(0xFFFE, 0x5A).unwrap();
    assert_eq!(bus.write_word(0xFFFF, 0xBEEF), Err(Fault::ReadOnly));
    assert_eq!(bus.read_byte(0xFFFE), Ok(0x5A));
    // with the first bank controller: low byte at 0xBFFF is writable, high
    // byte at 0xC000 too; but low byte at 0x7FFF is not.
    let mut bus = bus_over_mbc1(vec![0; 65536]);
    bus.write_byte(0xC000, 0x11).unwrap();
    assert_eq!(bus.write_word(0x9FFF, 0xBEEF), Err(Fault::Unimplemented));
    assert_eq!(bus.read_byte(0xC000), Ok(0x11));
}

#[test]
fn word_read_reports_the_first_fault() {
    let bus = bus_over_rom(vec![0; 32768]);
    assert_eq!(bus.read_word(0x7FFF), Err(Fault::Unimplemented));
    assert_eq!(bus.read_word(0x9FFF), Err(Fault::Unimplemented));
    assert_eq!(bus.read_word(0xBFFF), Err(Fault::BeyondImage));
    // the word at 0xFFFF has its high byte at 0x0000
    let bus = bus_over_rom(vec![0x12; 32768]);
    assert_eq!(bus.read_word(0xFFFF), Ok(0x1200));
}
