use gb::cpu::alu::{
    add_displacement, add_words, adjust, carry_negative, carry_positive, compute, decrement,
    displace, half_carry_negative, half_carry_positive, increment, reset_bit, rotate, set_bit,
    test_bit,
};
use gb::cpu::flags::FlagsRegisters;
use gb::cpu::operand::{Alu, Rot};

fn alu_flags(z: bool, n: bool, h: bool, c: bool) -> FlagsRegisters {
    FlagsRegisters { z, n, h, c }
}

#[test]
fn carry_helpers_follow_their_formulas() {
    for left in 0..=255u8 {
        for right in 0..=255u8 {
            assert_eq!(half_carry_positive(left, right), (left & 0xF) + (right & 0xF) > 0xF);
            assert_eq!(half_carry_negative(left, right), (left & 0xF) < (right & 0xF));
            assert_eq!(carry_positive(left, right), left.overflowing_add(right).1);
            assert_eq!(carry_negative(left, right), left.overflowing_sub(right).1);
        }
    }
}

#[test]
fn addition_flags_for_all_operands() {
    let any = alu_flags(true, true, true, true);
    for left in 0..=255u8 {
        for right in 0..=255u8 {
            let (result, flags) = compute(Alu::AddA, left, right, any);
            assert_eq!(result, left.wrapping_add(right));
            assert_eq!(flags.z, result == 0);
            assert!(!flags.n);
            assert_eq!(flags.h, (left & 0xF) + (right & 0xF) > 0xF);
            assert_eq!(flags.c, left.overflowing_add(right).1);
        }
    }
}

#[test]
fn subtraction_and_comparison_flags_for_all_operands() {
    let any = alu_flags(false, false, false, true);
    for left in 0..=255u8 {
        for right in 0..=255u8 {
            let (result, flags) = compute(Alu::Sub, left, right, any);
            assert_eq!(result, left.wrapping_sub(right));
            assert_eq!(flags.z, result == 0);
            assert!(flags.n);
            assert_eq!(flags.h, (left & 0xF) < (right & 0xF));
            assert_eq!(flags.c, left.overflowing_sub(right).1);
            let (kept, compared) = compute(Alu::Cp, left, right, any);
            assert_eq!(kept, left);
            assert_eq!(compared, flags);
        }
    }
}

#[test]
fn addition_with_carry_counts_the_carry_in() {
    for left in 0..=255u8 {
        for right in 0..=255u8 {
            for carry in [false, true] {
                let k = carry as u16;
                let (result, flags) =
                    compute(Alu::AdcA, left, right, alu_flags(false, true, false, carry));
                let sum = left as u16 + right as u16 + k;
                assert_eq!(result, (sum & 0xFF) as u8);
                assert_eq!(flags.z, result == 0);
                assert!(!flags.n);
                assert_eq!(flags.h, (left & 0xF) as u16 + (right & 0xF) as u16 + k > 0xF);
                assert_eq!(flags.c, sum > 0xFF);
            }
        }
    }
    // with the carry clear it is a plain addition
    assert_eq!(
        compute(Alu::AdcA, 0x0F, 0x01, alu_flags(false, false, false, false)),
        compute(Alu::AddA, 0x0F, 0x01, alu_flags(false, false, false, false))
    );
    // the carry alone can carry out of bit 3
    let (result, flags) = compute(Alu::AdcA, 0x0F, 0x00, alu_flags(false, false, false, true));
    assert_eq!((result, flags), (0x10, alu_flags(false, false, true, false)));
}

#[test]
fn subtraction_with_carry_counts_the_carry_in() {
    for left in 0..=255u8 {
        for right in 0..=255u8 {
            for carry in [false, true] {
                let k = carry as i16;
                let (result, flags) =
                    compute(Alu::SbcA, left, right, alu_flags(false, false, false, carry));
                let diff = left as i16 - right as i16 - k;
                assert_eq!(result, (diff & 0xFF) as u8);
                assert_eq!(flags.z, result == 0);
                assert!(flags.n);
                assert_eq!(flags.h, ((left & 0xF) as i16) < (right & 0xF) as i16 + k);
                assert_eq!(flags.c, diff < 0);
            }
        }
    }
    let (result, flags) = compute(Alu::SbcA, 0x10, 0x00, alu_flags(false, false, false, true));
    assert_eq!((result, flags), (0x0F, alu_flags(false, true, true, false)));
}

#[test]
fn logic_operations() {
    let any = alu_flags(true, true, true, true);
    assert_eq!(compute(Alu::And, 0xF0, 0x3C, any), (0x30, alu_flags(false, false, true, false)));
    assert_eq!(compute(Alu::And, 0xF0, 0x0F, any), (0x00, alu_flags(true, false, true, false)));
    assert_eq!(compute(Alu::Xor, 0xF0, 0x3C, any), (0xCC, alu_flags(false, false, false, false)));
    assert_eq!(compute(Alu::Xor, 0x5A, 0x5A, any), (0x00, alu_flags(true, false, false, false)));
    assert_eq!(compute(Alu::Or, 0xF0, 0x3C, any), (0xFC, alu_flags(false, false, false, false)));
    assert_eq!(compute(Alu::Or, 0x00, 0x00, any), (0x00, alu_flags(true, false, false, false)));
}

#[test]
fn increment_and_decrement_leave_the_carry() {
    for carry in [false, true] {
        let before = alu_flags(true, true, true, carry);
        assert_eq!(increment(0x00, before), (0x01, alu_flags(false, false, false, carry)));
        assert_eq!(increment(0x0F, before), (0x10, alu_flags(false, false, true, carry)));
        assert_eq!(increment(0xFF, before), (0x00, alu_flags(true, false, true, carry)));
        assert_eq!(decrement(0x01, before), (0x00, alu_flags(true, true, false, carry)));
        assert_eq!(decrement(0x10, before), (0x0F, alu_flags(false, true, true, carry)));
        assert_eq!(decrement(0x00, before), (0xFF, alu_flags(false, true, true, carry)));
    }
}

#[test]
fn rotations_and_shifts() {
    assert_eq!(rotate(Rot::Rlc, 0x85, false), (0x0B, true));
    assert_eq!(rotate(Rot::Rlc, 0x42, true), (0x84, false));
    assert_eq!(rotate(Rot::Rrc, 0x01, false), (0x80, true));
    assert_eq!(rotate(Rot::Rrc, 0x42, true), (0x21, false));
    assert_eq!(rotate(Rot::Rl, 0x80, false), (0x00, true));
    assert_eq!(rotate(Rot::Rl, 0x01, true), (0x03, false));
    assert_eq!(rotate(Rot::Rr, 0x01, false), (0x00, true));
    assert_eq!(rotate(Rot::Rr, 0x02, true), (0x81, false));
    assert_eq!(rotate(Rot::Sla, 0xC1, true), (0x82, true));
    assert_eq!(rotate(Rot::Sra, 0x81, false), (0xC0, true));
    assert_eq!(rotate(Rot::Sra, 0x7E, true), (0x3F, false));
    assert_eq!(rotate(Rot::Swap, 0xA5, true), (0x5A, false));
    assert_eq!(rotate(Rot::Srl, 0x81, false), (0x40, true));
    for val in 0..=255u8 {
        assert_eq!(rotate(Rot::Rlc, val, false).0, val.rotate_left(1));
        assert_eq!(rotate(Rot::Rrc, val, false).0, val.rotate_right(1));
        assert_eq!(rotate(Rot::Swap, val, false).0, val.rotate_left(4));
    }
}

#[test]
fn decimal_adjustment() {
    // 0x45 + 0x38 = 0x7D, adjusted to 0x83
    assert_eq!(
        adjust(0x7D, alu_flags(false, false, false, false)),
        (0x83, alu_flags(false, false, false, false))
    );
    // 0x99 + 0x01 = 0x9A, adjusted to 0x00 with carry
    assert_eq!(
        adjust(0x9A, alu_flags(false, false, false, false)),
        (0x00, alu_flags(true, false, false, true))
    );
    // 0x08 + 0x08 = 0x10 with half-carry, adjusted to 0x16
    assert_eq!(
        adjust(0x10, alu_flags(false, false, true, false)),
        (0x16, alu_flags(false, false, false, false))
    );
    // sticky carry adds 0x60
    assert_eq!(
        adjust(0x12, alu_flags(false, false, false, true)),
        (0x72, alu_flags(false, false, false, true))
    );
    // after a subtraction: 0x42 - 0x05 = 0x3D with half-borrow, adjusted to 0x37
    assert_eq!(
        adjust(0x3D, alu_flags(false, true, true, false)),
        (0x37, alu_flags(false, true, false, false))
    );
    // after a subtraction with borrow out of bit 7
    assert_eq!(
        adjust(0xA0, alu_flags(false, true, false, true)),
        (0x40, alu_flags(false, true, false, true))
    );
    // after a subtraction both corrections wrap below zero
    assert_eq!(
        adjust(0x00, alu_flags(false, true, true, true)),
        (0x9A, alu_flags(false, true, false, true))
    );
    // nothing to correct
    assert_eq!(
        adjust(0x00, alu_flags(false, false, false, false)),
        (0x00, alu_flags(true, false, false, false))
    );
}

#[test]
fn word_addition() {
    let flags = alu_flags(true, true, false, false);
    assert_eq!(add_words(0x0FFF, 0x0001, flags), (0x1000, alu_flags(true, false, true, false)));
    assert_eq!(add_words(0xFFFF, 0x0001, flags), (0x0000, alu_flags(true, false, true, true)));
    assert_eq!(add_words(0x8000, 0x8000, flags), (0x0000, alu_flags(true, false, false, true)));
    let clear = alu_flags(false, true, true, true);
    assert_eq!(add_words(0x1234, 0x1111, clear), (0x2345, alu_flags(false, false, false, false)));
}

#[test]
fn signed_displacements() {
    assert_eq!(displace(0x1000, 0x00), 0x1000);
    assert_eq!(displace(0x1000, 0x7F), 0x107F);
    assert_eq!(displace(0x1000, 0x80), 0x0F80);
    assert_eq!(displace(0x1000, 0xFF), 0x0FFF);
    assert_eq!(displace(0x0000, 0xFF), 0xFFFF);
    assert_eq!(displace(0xFFFF, 0x01), 0x0000);
    assert_eq!(add_displacement(0xFFF8, 0x08), (0x0000, alu_flags(false, false, true, true)));
    assert_eq!(add_displacement(0x0001, 0xFF), (0x0000, alu_flags(false, false, true, true)));
    assert_eq!(add_displacement(0x0100, 0xFF), (0x00FF, alu_flags(false, false, false, false)));
    assert_eq!(add_displacement(0x000F, 0x01), (0x0010, alu_flags(false, false, true, false)));
}

#[test]
fn single_bits() {
    for k in 0..8u8 {
        assert!(test_bit(1 << k, k));
        assert!(!test_bit(!(1 << k), k));
        assert_eq!(set_bit(0x00, k), 1 << k);
        assert_eq!(reset_bit(0xFF, k), !(1u8 << k));
        assert_eq!(set_bit(0xFF, k), 0xFF);
        assert_eq!(reset_bit(0x00, k), 0x00);
    }
    assert!(test_bit(0x80, 7));
    assert!(!test_bit(0x80, 6));
}
