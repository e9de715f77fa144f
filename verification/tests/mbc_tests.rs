use gb::fault::Fault;
use gb::mbc::{new_mbc, Mbc, Mbc1, RomOnly};
use gb::rom::{CartridgeType, Rom, RomError};

fn mbc_image(cartridge_type: u8, size_code: u8, len: usize) -> Vec<u8> {
    let mut image = vec![0u8; len];
    image[0x147] = cartridge_type;
    image[0x148] = size_code;
    let mut sum: u8 = 0;
    for i in 0x134..=0x14C {
        sum = sum.wrapping_sub(image[i]).wrapping_sub(1);
    }
    image[0x14D] = sum;
    image
}

#[test]
fn rom_only_over_zero_image_reads_zero_and_rejects_writes() {
    let image = mbc_image(0x00, 0x00, 32 * 1024);
    let rom = Rom::new(image).unwrap();
    let mut mbc = new_mbc(rom).unwrap();
    assert!(matches!(mbc, Mbc::RomOnly(_)));
    assert_eq!(mbc.read(0x0000), Ok(0));
    for addr in [0x0000u16, 0x1234, 0x7FFF, 0x8000, 0xA000, 0xBFFF, 0xC000, 0xFFFF] {
        assert_eq!(mbc.write(addr, 0x5A), Err(Fault::ReadOnly));
        assert_eq!(mbc.write_fault(addr), Some(Fault::ReadOnly));
    }
    assert_eq!(mbc.read(0x0000), Ok(0));
}

#[test]
fn rom_only_reads_the_image() {
    let mut image = mbc_image(0x00, 0x00, 32 * 1024);
    image[0x0000] = 0x11;
    image[0x7FFF] = 0x22;
    let mut sum: u8 = 0;
    for i in 0x134..=0x14C {
        sum = sum.wrapping_sub(image[i]).wrapping_sub(1);
    }
    image[0x14D] = sum;
    let inner = RomOnly::new(Rom::new(image).unwrap());
    assert_eq!(inner.read(0x0000), Ok(0x11));
    assert_eq!(inner.read(0x7FFF), Ok(0x22));
    assert_eq!(inner.read(0x014D), Ok(sum));
    // past the 32 KiB image, but still in the range a controller answers
    assert_eq!(inner.read(0x8000), Err(Fault::BeyondImage));
    assert_eq!(inner.read(0xBFFF), Err(Fault::BeyondImage));
    // outside that range
    assert_eq!(inner.read(0xC000), Err(Fault::OutsideCartridge));
    assert_eq!(inner.read(0xFFFF), Err(Fault::OutsideCartridge));
}

#[test]
fn mbc1_reads_the_image_up_to_0xbfff() {
    let mut image = mbc_image(0x01, 0x01, 64 * 1024);
    image[0xA010] = 0x77;
    image[0xBFFF] = 0x78;
    image[0xC000] = 0x79;
    let mbc1 = Mbc1::new(Rom::new(image).unwrap());
    assert_eq!(mbc1.read(0xA010), Ok(0x77));
    assert_eq!(mbc1.read(0xBFFF), Ok(0x78));
    assert_eq!(mbc1.read(0xC000), Err(Fault::OutsideCartridge));
}

#[test]
fn mbc1_takes_writes_in_the_ram_window_only() {
    let image = mbc_image(0x01, 0x01, 64 * 1024);
    let mut mbc = new_mbc(Rom::new(image).unwrap()).unwrap();
    assert!(matches!(mbc, Mbc::Mbc1(_)));
    assert_eq!(mbc.write(0xA000, 0x42), Ok(()));
    assert_eq!(mbc.write(0xBFFF, 0x43), Ok(()));
    assert_eq!(mbc.write_fault(0xA000), None);
    for addr in [0x0000u16, 0x2000, 0x7FFF, 0x9FFF, 0xC000, 0xFFFF] {
        assert_eq!(mbc.write(addr, 0x01), Err(Fault::OutsideCartridge));
        assert_eq!(mbc.write_fault(addr), Some(Fault::OutsideCartridge));
    }
    // reads still see the image
    assert_eq!(mbc.read(0xA000), Ok(0));
}

#[test]
fn other_cartridge_types_have_no_controller() {
    let image = mbc_image(0x13, 0x00, 32 * 1024);
    let rom = Rom::new(image).unwrap();
    assert_eq!(rom.cartridge_type, CartridgeType::Mbc3RamBattery);
    assert_eq!(
        new_mbc(rom).err(),
        Some(RomError::UnsupportedCartridgeType(CartridgeType::Mbc3RamBattery))
    );
    let image = mbc_image(0x02, 0x00, 32 * 1024);
    assert_eq!(
        new_mbc(Rom::new(image).unwrap()).err(),
        Some(RomError::UnsupportedCartridgeType(CartridgeType::Mbc1Ram))
    );
}
