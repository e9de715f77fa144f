use gb::cpu::flags::FlagsRegisters;
use gb::cpu::operand::{Alu, Cc, Rot, Rp, Rp2, R};
use gb::cpu::registers::Registers;

#[test]
fn registers_start_at_zero() {
    let r = Registers::new();
    assert_eq!(r, Registers { a: 0, f: 0, bc: 0, de: 0, hl: 0, sp: 0, pc: 0 });
    let f = FlagsRegisters::new();
    assert_eq!(f, FlagsRegisters { z: false, n: false, h: false, c: false });
}

#[test]
fn pair_setters_set_one_pair() {
    let mut r = Registers::new();
    r.set_a(0x12);
    r.set_bc(0x3456);
    r.set_de(0x789A);
    r.set_hl(0xBCDE);
    assert_eq!(r, Registers { a: 0x12, f: 0, bc: 0x3456, de: 0x789A, hl: 0xBCDE, sp: 0, pc: 0 });
    assert_eq!(r.get_a(), 0x12);
}

#[test]
fn halves_are_the_high_and_low_bytes() {
    let mut r = Registers::new();
    r.set_bc(0x1234);
    r.set_de(0x5678);
    r.set_hl(0x9ABC);
    assert_eq!(r.get_b(), 0x12);
    assert_eq!(r.get_c(), 0x34);
    assert_eq!(r.get_d(), 0x56);
    assert_eq!(r.get_e(), 0x78);
    assert_eq!(r.get_h(), 0x9A);
    assert_eq!(r.get_l(), 0xBC);
}

#[test]
fn writing_one_half_keeps_the_other() {
    for pair in [0x0000u16, 0x00FF, 0xFF00, 0xFFFF, 0x1234, 0xA5C3] {
        for val in [0x00u8, 0x01, 0x7F, 0x80, 0xFF] {
            let mut r = Registers::new();
            r.set_bc(pair);
            r.set_de(pair);
            r.set_hl(pair);
            let low = (pair & 0xFF) as u8;
            let high = (pair >> 8) as u8;
            r.set_b(val);
            assert_eq!((r.get_b(), r.get_c()), (val, low));
            r.set_d(val);
            assert_eq!((r.get_d(), r.get_e()), (val, low));
            r.set_h(val);
            assert_eq!((r.get_h(), r.get_l()), (val, low));
            r.set_bc(pair);
            r.set_de(pair);
            r.set_hl(pair);
            r.set_c(val);
            assert_eq!((r.get_b(), r.get_c()), (high, val));
            r.set_e(val);
            assert_eq!((r.get_d(), r.get_e()), (high, val));
            r.set_l(val);
            assert_eq!((r.get_h(), r.get_l()), (high, val));
            assert_eq!((r.a, r.f, r.sp, r.pc), (0, 0, 0, 0));
        }
    }
}

#[test]
fn halves_compose_the_pair() {
    let mut r = Registers::new();
    r.set_b(0xAB);
    r.set_c(0xCD);
    assert_eq!(r.bc, 0xABCD);
    r.set_e(0x01);
    r.set_d(0x02);
    assert_eq!(r.de, 0x0201);
    r.set_h(0xFF);
    r.set_l(0x00);
    assert_eq!(r.hl, 0xFF00);
}

#[test]
fn operand_access_by_index() {
    let mut r = Registers::new();
    let all = [R::B, R::C, R::D, R::E, R::H, R::L, R::A];
    for (i, which) in all.iter().enumerate() {
        assert!(r.set_r(*which, 0x10 + i as u8));
    }
    for (i, which) in all.iter().enumerate() {
        assert_eq!(r.get_r(*which), Some(0x10 + i as u8));
    }
    assert_eq!(r.bc, 0x1011);
    assert_eq!(r.de, 0x1213);
    assert_eq!(r.hl, 0x1415);
    assert_eq!(r.a, 0x16);
    let before = r;
    assert!(!r.set_r(R::Hl, 0x99));
    assert_eq!(r, before);
    assert_eq!(r.get_r(R::Hl), None);
}

#[test]
fn accumulator_pair_packs_a_and_the_flag_nibble() {
    let mut r = Registers::new();
    r.set_af(0x12FF);
    assert_eq!(r.a, 0x12);
    assert_eq!(r.f, 0xF0);
    assert_eq!(r.af(), 0x12F0);
    r.set_af(0xAB3C);
    assert_eq!(r.f, 0x30);
    assert_eq!(r.af(), 0xAB30);
    // a low nibble that found its way into f does not show in the pair
    r.f = 0x5F;
    assert_eq!(r.af(), 0xAB50);
}

#[test]
fn pair_tables() {
    let mut r = Registers { a: 0x01, f: 0x20, bc: 0x1111, de: 0x2222, hl: 0x3333, sp: 0x4444, pc: 0x5555 };
    assert_eq!(r.get_rp(Rp::Bc), 0x1111);
    assert_eq!(r.get_rp(Rp::De), 0x2222);
    assert_eq!(r.get_rp(Rp::Hl), 0x3333);
    assert_eq!(r.get_rp(Rp::Sp), 0x4444);
    assert_eq!(r.get_rp2(Rp2::Bc, true), 0x1111);
    assert_eq!(r.get_rp2(Rp2::De, false), 0x2222);
    assert_eq!(r.get_rp2(Rp2::Hl, true), 0x3333);
    assert_eq!(r.get_rp2(Rp2::Af, true), 0x0120);
    assert_eq!(r.get_rp2(Rp2::Af, false), 0x4444);
    r.set_rp(Rp::Sp, 0xFFFE);
    assert_eq!(r.sp, 0xFFFE);
    r.set_r16(Rp2::Bc, 0xAAAA, true);
    r.set_r16(Rp2::De, 0xBBBB, false);
    r.set_r16(Rp2::Hl, 0xCCCC, true);
    assert_eq!((r.bc, r.de, r.hl), (0xAAAA, 0xBBBB, 0xCCCC));
    r.set_r16(Rp2::Af, 0x9876, false);
    assert_eq!((r.a, r.f, r.sp), (0x98, 0x70, 0xFFFE));
    r.set_r16(Rp2::Af, 0x1234, true);
    assert_eq!((r.a, r.f, r.sp), (0x98, 0x70, 0x1234));
}

#[test]
fn conditions_consult_zero_and_carry() {
    for z in [false, true] {
        for c in [false, true] {
            let f = FlagsRegisters { z, n: true, h: false, c };
            assert_eq!(f.get_c(Cc::Nz), !z);
            assert_eq!(f.get_c(Cc::Z), z);
            assert_eq!(f.get_c(Cc::Nc), !c);
            assert_eq!(f.get_c(Cc::C), c);
        }
    }
}

#[test]
fn flag_setters_overwrite_one_flag() {
    let mut f = FlagsRegisters::new();
    f.set_z(true);
    assert_eq!(f, FlagsRegisters { z: true, n: false, h: false, c: false });
    f.set_z(true);
    assert_eq!(f, FlagsRegisters { z: true, n: false, h: false, c: false });
    f.set_n(true);
    f.set_h(true);
    f.set_c(true);
    assert_eq!(f, FlagsRegisters { z: true, n: true, h: true, c: true });
    f.set_z(false);
    f.set_h(false);
    assert_eq!(f, FlagsRegisters { z: false, n: true, h: false, c: true });
}

#[test]
fn flags_pack_into_bits_four_to_seven() {
    assert_eq!(FlagsRegisters { z: false, n: false, h: false, c: true }.pack(), 0x10);
    assert_eq!(FlagsRegisters { z: false, n: false, h: true, c: false }.pack(), 0x20);
    assert_eq!(FlagsRegisters { z: false, n: true, h: false, c: false }.pack(), 0x40);
    assert_eq!(FlagsRegisters { z: true, n: false, h: false, c: false }.pack(), 0x80);
    assert_eq!(FlagsRegisters { z: true, n: true, h: true, c: true }.pack(), 0xF0);
    assert_eq!(FlagsRegisters::new().pack(), 0x00);
    for byte in 0..=255u8 {
        let flags = FlagsRegisters::unpack(byte);
        assert_eq!(flags.pack(), byte & 0xF0);
        assert_eq!(FlagsRegisters::unpack(flags.pack()), flags);
    }
}

#[test]
fn operands_are_numbered_as_in_the_opcode() {
    assert_eq!(Cc::from_u8(0), Some(Cc::Nz));
    assert_eq!(Cc::from_u8(1), Some(Cc::Z));
    assert_eq!(Cc::from_u8(2), Some(Cc::Nc));
    assert_eq!(Cc::from_u8(3), Some(Cc::C));
    assert_eq!(Cc::from_u8(4), None);
    assert_eq!(Rp::from_u8(0), Some(Rp::Bc));
    assert_eq!(Rp::from_u8(1), Some(Rp::De));
    assert_eq!(Rp::from_u8(2), Some(Rp::Hl));
    assert_eq!(Rp::from_u8(3), Some(Rp::Sp));
    assert_eq!(Rp::from_u8(4), None);
    assert_eq!(Rp2::from_u8(0), Some(Rp2::Bc));
    assert_eq!(Rp2::from_u8(1), Some(Rp2::De));
    assert_eq!(Rp2::from_u8(2), Some(Rp2::Hl));
    assert_eq!(Rp2::from_u8(3), Some(Rp2::Af));
    assert_eq!(Rp2::from_u8(255), None);
    let r = [R::B, R::C, R::D, R::E, R::H, R::L, R::Hl, R::A];
    let alu = [Alu::AddA, Alu::AdcA, Alu::Sub, Alu::SbcA, Alu::And, Alu::Xor, Alu::Or, Alu::Cp];
    let rot = [Rot::Rlc, Rot::Rrc, Rot::Rl, Rot::Rr, Rot::Sla, Rot::Sra, Rot::Swap, Rot::Srl];
    for n in 0..8u8 {
        assert_eq!(R::from_u8(n), Some(r[n as usize]));
        assert_eq!(Alu::from_u8(n), Some(alu[n as usize]));
        assert_eq!(Rot::from_u8(n), Some(rot[n as usize]));
    }
    assert_eq!(R::from_u8(8), None);
    assert_eq!(Alu::from_u8(8), None);
    assert_eq!(Rot::from_u8(8), None);
}
