//! Arithmetic, logic, rotations and single-bit operations on bytes and
//! words, each with the flags it gives.
use vstd::prelude::*;
use crate::bits::{lemma_nibbles, lemma_sign_extend, lemma_word_halves, signed, wrap16, wrap8};
use crate::cpu::flags::{bit_of, FlagsRegisters};
use crate::cpu::operand::{Alu, Rot};

verus! {

/// Whether adding `right` to `left` carries out of bit 3.
pub open spec fn half_carries(left: u8, right: u8) -> bool {
    left % 16 + right % 16 > 15
}

/// Whether adding `right` to `left` carries out of bit 7.
pub open spec fn carries(left: u8, right: u8) -> bool {
    left + right > 255
}

/// Whether taking `right` from `left` borrows into bit 3.
pub open spec fn half_borrows(left: u8, right: u8) -> bool {
    left % 16 < right % 16
}

/// Whether taking `right` from `left` borrows into bit 7.
pub open spec fn borrows(left: u8, right: u8) -> bool {
    left < right
}

/// Whether taking `right` from `left` borrows into bit 3: the low four bits
/// of `left` are less than those of `right`.
pub fn half_carry_negative(left: u8, right: u8) -> (borrow: bool)
    ensures
        borrow == half_borrows(left, right),
        borrow == ((left & 0x0F) < (right & 0x0F)),
{
    proof {
        lemma_nibbles(left);
        lemma_nibbles(right);
    }
    (left & 0x0F) < (right & 0x0F)
}

/// Whether taking `right` from `left` goes below zero.
pub fn carry_negative(left: u8, right: u8) -> (borrow: bool)
    ensures
        borrow == borrows(left, right),
{
    left.checked_sub(right).is_none()
}

/// Whether adding `right` to `left` goes above 255.
pub fn carry_positive(left: u8, right: u8) -> (carry: bool)
    ensures
        carry == carries(left, right),
{
    left.checked_add(right).is_none()
}

/// Whether adding `right` to `left` carries out of bit 3: the low four bits
/// of the two add up to more than 15.
pub fn half_carry_positive(left: u8, right: u8) -> (carry: bool)
    ensures
        carry == half_carries(left, right),
        carry == ((left & 0x0F) + (right & 0x0F) > 0x0F),
{
    proof {
        lemma_nibbles(left);
        lemma_nibbles(right);
    }
    (left & 0x0F) + (right & 0x0F) > 0x0F
}

/// The outcome of an operation of the arithmetic and logic unit on the
/// accumulator `left` and the operand `right`: the new accumulator and the
/// new flags. Additions and subtractions are modulo 256; the two forms with
/// carry also add or take away the carry flag.
pub open spec fn alu(op: Alu, left: u8, right: u8, flags: FlagsRegisters) -> (
    u8,
    FlagsRegisters,
) {
    let k = bit_of(flags.c);
    match op {
        Alu::AddA => (
            wrap8(left + right),
            FlagsRegisters {
                z: wrap8(left + right) == 0,
                n: false,
                h: left % 16 + right % 16 > 15,
                c: left + right > 255,
            },
        ),
        Alu::AdcA => (
            wrap8(left + right + k),
            FlagsRegisters {
                z: wrap8(left + right + k) == 0,
                n: false,
                h: left % 16 + right % 16 + k > 15,
                c: left + right + k > 255,
            },
        ),
        Alu::Sub => (
            wrap8(left - right),
            FlagsRegisters {
                z: left == right,
                n: true,
                h: left % 16 < right % 16,
                c: left < right,
            },
        ),
        Alu::SbcA => (
            wrap8(left - right - k),
            FlagsRegisters {
                z: wrap8(left - right - k) == 0,
                n: true,
                h: left % 16 < right % 16 + k,
                c: left < right + k,
            },
        ),
        Alu::And => (
            left & right,
            FlagsRegisters { z: left & right == 0, n: false, h: true, c: false },
        ),
        Alu::Xor => (
            left ^ right,
            FlagsRegisters { z: left ^ right == 0, n: false, h: false, c: false },
        ),
        Alu::Or => (
            left | right,
            FlagsRegisters { z: left | right == 0, n: false, h: false, c: false },
        ),
        Alu::Cp => (
            left,
            FlagsRegisters {
                z: left == right,
                n: true,
                h: left % 16 < right % 16,
                c: left < right,
            },
        ),
    }
}

/// The half-carry and carry flags of the additions and subtractions, by the
/// low four bits of the operands and by the range of a byte: an addition sets
/// the half-carry flag exactly when the low four bits of the two operands add
/// up to more than 15, and the carry flag exactly when the sum is above 255;
/// a subtraction or comparison sets the half-carry flag exactly when the low
/// four bits of the accumulator are less than those of the operand, and the
/// carry flag exactly when the difference is below zero. For the two
/// operations with carry this is so where the carry flag comes in clear.
pub proof fn lemma_arithmetic_flags(op: Alu, left: u8, right: u8, flags: FlagsRegisters)
    requires
        op is AdcA || op is SbcA ==> !flags.c,
    ensures
        op is AddA || op is AdcA ==> {
            &&& alu(op, left, right, flags).1.h == ((left & 0x0F) + (right & 0x0F) > 0x0F)
            &&& alu(op, left, right, flags).1.c == (left + right > u8::MAX)
            &&& alu(op, left, right, flags).0 == wrap8(left + right)
        },
        op is Sub || op is SbcA || op is Cp ==> {
            &&& alu(op, left, right, flags).1.h == ((left & 0x0F) < (right & 0x0F))
            &&& alu(op, left, right, flags).1.c == (left - right < 0)
        },
{
    lemma_nibbles(left);
    lemma_nibbles(right);
}

/// Adds `right` to `left`.
pub fn add_bytes(left: u8, right: u8, flags: FlagsRegisters) -> (out: (u8, FlagsRegisters))
    ensures
        out == alu(Alu::AddA, left, right, flags),
{
    let result = left.wrapping_add(right);
    (
        result,
        FlagsRegisters {
            z: result == 0,
            n: false,
            h: half_carry_positive(left, right),
            c: carry_positive(left, right),
        },
    )
}

/// Adding a byte and then a carry carries, out of bit 3 or out of bit 7,
/// exactly when adding their sum does, and leaves the same byte.
pub proof fn lemma_carry_in_two_steps(left: u8, right: u8, k: u8)
    requires
        k <= 1,
    ensures
        wrap8(wrap8(left + right) + k) == wrap8(left + right + k),
        (left + right > 255 || wrap8(left + right) + k > 255) <==> left + right + k > 255,
        (left % 16 + right % 16 > 15 || wrap8(left + right) % 16 + k % 16 > 15) <==> left % 16
            + right % 16 + k > 15,
{
    let first = wrap8(left + right);
    if left + right <= 255 {
        assert(first == left + right);
    } else {
        assert(first == left + right - 256);
    }
    if left % 16 + right % 16 <= 15 {
        assert(first % 16 == left % 16 + right % 16);
    }
}

/// Adds `right` and the carry to `left`: first `right`, then the carry, where
/// a carry out of either addition is one of the whole.
pub fn adc_bytes(left: u8, right: u8, flags: FlagsRegisters) -> (out: (u8, FlagsRegisters))
    ensures
        out == alu(Alu::AdcA, left, right, flags),
{
    let c: u8 = if flags.c {
        1
    } else {
        0
    };
    proof {
        lemma_carry_in_two_steps(left, right, c);
    }
    let result1 = left.wrapping_add(right);
    let result2 = result1.wrapping_add(c);
    let c1 = carry_positive(left, right);
    let h1 = half_carry_positive(left, right);
    let c2 = carry_positive(result1, c);
    let h2 = half_carry_positive(result1, c);
    (result2, FlagsRegisters { z: result2 == 0, n: false, h: h1 || h2, c: c1 || c2 })
}

/// Takes `right` from `left`.
pub fn sub_bytes(left: u8, right: u8, flags: FlagsRegisters) -> (out: (u8, FlagsRegisters))
    ensures
        out == alu(Alu::Sub, left, right, flags),
{
    let result = left.wrapping_sub(right);
    (
        result,
        FlagsRegisters {
            z: result == 0,
            n: true,
            h: half_carry_negative(left, right),
            c: carry_negative(left, right),
        },
    )
}

/// Taking away a byte and then a carry borrows, out of bit 3 or out of bit 7,
/// exactly when taking away their sum does, and leaves the same byte.
pub proof fn lemma_borrow_in_two_steps(left: u8, right: u8, k: u8)
    requires
        k <= 1,
    ensures
        wrap8(wrap8(left - right) - k) == wrap8(left - right - k),
        (left < right || wrap8(left - right) < k) <==> left < right + k,
        (left % 16 < right % 16 || wrap8(left - right) % 16 < k % 16) <==> left % 16 < right % 16
            + k,
{
    let first = wrap8(left - right);
    if left >= right {
        assert(first == left - right);
        if left % 16 >= right % 16 {
            assert(first % 16 == left % 16 - right % 16);
        }
    } else {
        assert(first == left - right + 256);
        if left % 16 >= right % 16 {
            assert(first % 16 == left % 16 - right % 16);
        }
    }
}

/// Takes `right` and the carry from `left`: first `right`, then the carry,
/// where a borrow of either subtraction is one of the whole.
pub fn sbc_bytes(left: u8, right: u8, flags: FlagsRegisters) -> (out: (u8, FlagsRegisters))
    ensures
        out == alu(Alu::SbcA, left, right, flags),
{
    let c: u8 = if flags.c {
        1
    } else {
        0
    };
    proof {
        lemma_borrow_in_two_steps(left, right, c);
    }
    let result1 = left.wrapping_sub(right);
    let result2 = result1.wrapping_sub(c);
    let c1 = carry_negative(left, right);
    let h1 = half_carry_negative(left, right);
    let c2 = carry_negative(result1, c);
    let h2 = half_carry_negative(result1, c);
    (result2, FlagsRegisters { z: result2 == 0, n: true, h: h1 || h2, c: c1 || c2 })
}

/// Carries out the operation `op` on the accumulator `left` and the operand
/// `right`.
pub fn compute(op: Alu, left: u8, right: u8, flags: FlagsRegisters) -> (out: (u8, FlagsRegisters))
    ensures
        out == alu(op, left, right, flags),
{
    match op {
        Alu::AddA => add_bytes(left, right, flags),
        Alu::AdcA => adc_bytes(left, right, flags),
        Alu::Sub => sub_bytes(left, right, flags),
        Alu::SbcA => sbc_bytes(left, right, flags),
        Alu::And => {
            let result = left & right;
            (result, FlagsRegisters { z: result == 0, n: false, h: true, c: false })
        },
        Alu::Xor => {
            let result = left ^ right;
            (result, FlagsRegisters { z: result == 0, n: false, h: false, c: false })
        },
        Alu::Or => {
            let result = left | right;
            (result, FlagsRegisters { z: result == 0, n: false, h: false, c: false })
        },
        Alu::Cp => {
            let (_, compared) = sub_bytes(left, right, flags);
            (left, compared)
        },
    }
}

/// The outcome of adding one to `val`: the sum modulo 256, with the zero and
/// half-carry flags of the addition, the subtract flag clear, and the carry
/// flag as it was.
pub open spec fn inc8(val: u8, flags: FlagsRegisters) -> (u8, FlagsRegisters) {
    (
        wrap8(val + 1),
        FlagsRegisters { z: val == 255, n: false, h: val % 16 == 15, c: flags.c },
    )
}

/// The outcome of taking one from `val`: the difference modulo 256, with the
/// zero and half-carry flags of the subtraction, the subtract flag set, and
/// the carry flag as it was.
pub open spec fn dec8(val: u8, flags: FlagsRegisters) -> (u8, FlagsRegisters) {
    (wrap8(val - 1), FlagsRegisters { z: val == 1, n: true, h: val % 16 == 0, c: flags.c })
}

/// Adds one to `val`.
pub fn increment(val: u8, flags: FlagsRegisters) -> (out: (u8, FlagsRegisters))
    ensures
        out == inc8(val, flags),
{
    let result = val.wrapping_add(1);
    (
        result,
        FlagsRegisters { z: result == 0, n: false, h: half_carry_positive(val, 1), c: flags.c },
    )
}

/// Takes one from `val`.
pub fn decrement(val: u8, flags: FlagsRegisters) -> (out: (u8, FlagsRegisters))
    ensures
        out == dec8(val, flags),
{
    let result = val.wrapping_sub(1);
    (
        result,
        FlagsRegisters { z: result == 0, n: true, h: half_carry_negative(val, 1), c: flags.c },
    )
}

/// The outcome of the rotation or shift `op` on `val`, where the carry flag
/// was `carry`: the new value, and the bit that left `val` as the new carry.
/// The plain rotations turn the byte through itself, the rotations through
/// carry turn the nine bits of carry and byte, the arithmetic shift to the
/// right keeps bit 7, and the swap exchanges the two halves of the byte.
pub open spec fn rotated(op: Rot, val: u8, carry: bool) -> (u8, bool) {
    match op {
        Rot::Rlc => (((val * 2) % 256 + val / 128) as u8, val >= 128),
        Rot::Rrc => ((val / 2 + (val % 2) * 128) as u8, val % 2 == 1),
        Rot::Rl => (((val * 2) % 256 + bit_of(carry)) as u8, val >= 128),
        Rot::Rr => ((val / 2 + bit_of(carry) * 128) as u8, val % 2 == 1),
        Rot::Sla => (((val * 2) % 256) as u8, val >= 128),
        Rot::Sra => ((val / 2 + (val / 128) * 128) as u8, val % 2 == 1),
        Rot::Swap => (((val % 16) * 16 + val / 16) as u8, false),
        Rot::Srl => ((val / 2) as u8, val % 2 == 1),
    }
}

/// Shifts and masks on a byte, as the rotations to the left use them, are
/// sums of multiples, quotients and remainders; and the complement of a byte
/// is what it lacks to 255.
pub proof fn lemma_rotate_left(val: u8)
    by (bit_vector)
    ensures
        (val << 1) | (val >> 7) == (val * 2) % 256 + val / 128,
        (val << 1) | 1 == (val * 2) % 256 + 1,
        val << 1 == (val * 2) % 256,
        (val >> 7) & 1 == 1 <==> val >= 128,
        !val == 255 - val,
{
}

/// Shifts and masks on a byte, as the rotations to the right and the swap
/// use them, are sums of multiples, quotients and remainders.
pub proof fn lemma_rotate_right(val: u8)
    by (bit_vector)
    ensures
        (val >> 1) | (val << 7) == val / 2 + (val % 2) * 128,
        (val >> 1) | 0x80 == val / 2 + 128,
        (val >> 1) | (val & 0x80) == val / 2 + (val / 128) * 128,
        (val << 4) | (val >> 4) == (val % 16) * 16 + val / 16,
        val >> 1 == val / 2,
        val & 1 == 1 <==> val % 2 == 1,
{
}

/// Carries out the rotation or shift `op` on `val`.
pub fn rotate(op: Rot, val: u8, carry: bool) -> (out: (u8, bool))
    ensures
        out == rotated(op, val, carry),
{
    proof {
        lemma_rotate_left(val);
        lemma_rotate_right(val);
    }
    let top = (val >> 7) & 1 == 1;
    let bottom = val & 1 == 1;
    match op {
        Rot::Rlc => ((val << 1) | (val >> 7), top),
        Rot::Rrc => ((val >> 1) | (val << 7), bottom),
        Rot::Rl => (
            if carry {
                (val << 1) | 1
            } else {
                val << 1
            },
            top,
        ),
        Rot::Rr => (
            if carry {
                (val >> 1) | 0x80
            } else {
                val >> 1
            },
            bottom,
        ),
        Rot::Sla => (val << 1, top),
        Rot::Sra => ((val >> 1) | (val & 0x80), bottom),
        Rot::Swap => ((val << 4) | (val >> 4), false),
        Rot::Srl => (val >> 1, bottom),
    }
}

/// The accumulator and the flags after the decimal adjustment of the
/// accumulator `a`. After an addition, 0x60 is added if the carry flag is set
/// or `a` is above 0x99, which also sets the carry flag, and then 0x06 if the
/// half-carry flag is set or the low digit is above 9. After a subtraction,
/// 0x60 is taken away if the carry flag is set, and 0x06 if the half-carry
/// flag is. The zero flag is that of the result, the half-carry flag is
/// cleared, and the subtract flag stays.
pub open spec fn adjusted(a: u8, flags: FlagsRegisters) -> (u8, FlagsRegisters) {
    if !flags.n {
        let high = flags.c || a > 0x99;
        let a1 = if high {
            wrap8(a + 0x60)
        } else {
            a
        };
        let a2 = if flags.h || a1 % 16 > 9 {
            wrap8(a1 + 0x06)
        } else {
            a1
        };
        (a2, FlagsRegisters { z: a2 == 0, n: flags.n, h: false, c: high })
    } else {
        let a1 = if flags.c {
            wrap8(a - 0x60)
        } else {
            a
        };
        let a2 = if flags.h {
            wrap8(a1 - 0x06)
        } else {
            a1
        };
        (a2, FlagsRegisters { z: a2 == 0, n: flags.n, h: false, c: flags.c })
    }
}

/// Adjusts the accumulator to two decimal digits.
pub fn adjust(a: u8, flags: FlagsRegisters) -> (out: (u8, FlagsRegisters))
    ensures
        out == adjusted(a, flags),
{
    let mut a = a;
    let mut flags = flags;
    if !flags.n {
        if flags.c || a > 0x99 {
            a = a.wrapping_add(0x60);
            flags.set_c(true);
        }
        proof {
            lemma_nibbles(a);
        }
        if flags.h || (a & 0x0F) > 0x09 {
            a = a.wrapping_add(0x06);
        }
    } else {
        if flags.c {
            a = a.wrapping_sub(0x60);
        }
        if flags.h {
            a = a.wrapping_sub(0x06);
        }
    }
    flags.set_z(a == 0);
    flags.set_h(false);
    (a, flags)
}

/// The outcome of adding the word `right` to the word `left`: the sum modulo
/// 65536, the half-carry flag for a carry out of bit 11, the carry flag for
/// one out of bit 15, the subtract flag clear, and the zero flag as it was.
pub open spec fn add16(left: u16, right: u16, flags: FlagsRegisters) -> (u16, FlagsRegisters) {
    (
        wrap16(left + right),
        FlagsRegisters {
            z: flags.z,
            n: false,
            h: left % 4096 + right % 4096 > 4095,
            c: left + right > 65535,
        },
    )
}

/// The low twelve bits of a word are its remainder by 4096.
pub proof fn lemma_low_twelve(val: u16)
    by (bit_vector)
    ensures
        val & 0x0FFF == val % 4096,
{
}

/// Adds the word `right` to the word `left`.
pub fn add_words(left: u16, right: u16, flags: FlagsRegisters) -> (out: (u16, FlagsRegisters))
    ensures
        out == add16(left, right, flags),
{
    proof {
        lemma_low_twelve(left);
        lemma_low_twelve(right);
    }
    (
        left.wrapping_add(right),
        FlagsRegisters {
            z: flags.z,
            n: false,
            h: (left & 0x0FFF) + (right & 0x0FFF) > 0x0FFF,
            c: left.checked_add(right).is_none(),
        },
    )
}

/// The word that lies the signed displacement `d` from `base`, modulo 65536.
pub open spec fn displaced(base: u16, d: u8) -> u16 {
    wrap16(base + signed(d))
}

/// The outcome of adding the signed displacement `d` to the word `base`: the
/// displaced word, the half-carry and carry flags of adding `d` to the low
/// byte of `base`, and the zero and subtract flags clear.
pub open spec fn add_signed(base: u16, d: u8) -> (u16, FlagsRegisters) {
    (
        displaced(base, d),
        FlagsRegisters {
            z: false,
            n: false,
            h: base % 16 + d % 16 > 15,
            c: base % 256 + d > 255,
        },
    )
}

/// Moves `base` by the signed displacement `d`.
pub fn displace(base: u16, d: u8) -> (moved: u16)
    ensures
        moved == displaced(base, d),
{
    proof {
        lemma_sign_extend(d);
    }
    let offset: u16 = if d < 128 {
        d as u16
    } else {
        0xFF00 | (d as u16)
    };
    base.wrapping_add(offset)
}

/// Adds the signed displacement `d` to the word `base`.
pub fn add_displacement(base: u16, d: u8) -> (out: (u16, FlagsRegisters))
    ensures
        out == add_signed(base, d),
{
    proof {
        lemma_word_halves(base);
    }
    let low = (base & 0x00FF) as u8;
    (
        displace(base, d),
        FlagsRegisters {
            z: false,
            n: false,
            h: half_carry_positive(low, d),
            c: carry_positive(low, d),
        },
    )
}

/// The mask that has the bit `k` alone.
pub open spec fn mask(k: u8) -> u8
    recommends
        k < 8,
{
    1u8 << k
}

/// Whether the bit `k` of `val` is set.
pub open spec fn bit_set(val: u8, k: u8) -> bool
    recommends
        k < 8,
{
    val & mask(k) != 0
}

/// Whether the bit `k` of `val` is set.
pub fn test_bit(val: u8, k: u8) -> (set: bool)
    requires
        k < 8,
    ensures
        set == bit_set(val, k),
{
    val & (1u8 << k) != 0
}

/// `val` with the bit `k` cleared.
pub fn reset_bit(val: u8, k: u8) -> (out: u8)
    requires
        k < 8,
    ensures
        out == val & !mask(k),
{
    val & !(1u8 << k)
}

/// `val` with the bit `k` set.
pub fn set_bit(val: u8, k: u8) -> (out: u8)
    requires
        k < 8,
    ensures
        out == val | mask(k),
{
    val | (1u8 << k)
}

} // verus!
