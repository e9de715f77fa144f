//! The decoder: it takes an opcode apart into its bit-fields and picks the
//! instruction they stand for.
use vstd::prelude::*;
use crate::cpu::operand::{Alu, Cc, Rp, Rp2, R};
use crate::cpu::state::{fields_of, Fields};
use crate::cpu::Cpu;
use crate::fault::{settled, Fault};

verus! {

/// Shifting an opcode's bit-fields down to bit 0 is dividing it, and the
/// remainder drops the bits above a field.
pub proof fn lemma_fields(opcode: u8)
    by (bit_vector)
    ensures
        opcode >> 6 == opcode / 64,
        (opcode << 2) >> 5 == (opcode / 8) % 8,
        (opcode << 5) >> 5 == opcode % 8,
{
}

/// The upper two bits and the lowest bit of a field of three bits.
pub proof fn lemma_subfields(y: u8)
    by (bit_vector)
    ensures
        y >> 1 == y / 2,
        y & 1 == y % 2,
{
}

impl Cpu {
    /// Takes `opcode` apart into its bit-fields.
    pub fn decompose(opcode: u8) -> (f: Fields)
        ensures
            f == fields_of(opcode),
    {
        proof {
            lemma_fields(opcode);
        }
        let x = opcode >> 6;
        let y = opcode << 2 >> 5;
        let z = opcode << 5 >> 5;
        proof {
            lemma_subfields(y);
        }
        let p = y >> 1;
        let q = y & 1;
        Fields { x, y, z, p, q }
    }

    /// Carries out the instruction with the field `x` at 0 that the other
    /// fields pick.
    fn call_operation_x0(&mut self, f: Fields) -> (r: Result<(), Fault>)
        requires
            exists|opcode: u8| f == fields_of(opcode),
        ensures
            settled(old(self)@, final(self)@, r, old(self)@.execute_x0(f)),
    {
        match f.z {
            0 => match f.y {
                0 => self.nop(),
                1 => self.ld_nn_sp(),
                2 => self.stop(),
                3 => self.jr_d(),
                _ => match Cc::from_u8(f.y - 4) {
                    Some(cc) => self.jr_cc_d(cc),
                    None => Err(Fault::UnknownOpcode),
                },
            },
            1 => match Rp::from_u8(f.p) {
                Some(rp) => match f.q {
                    0 => self.ld_rp_nn(rp),
                    _ => self.add_hl_rp(rp),
                },
                None => Err(Fault::UnknownOpcode),
            },
            2 => match f.q {
                0 => match f.p {
                    0 => self.ld_bc_a(),
                    1 => self.ld_de_a(),
                    2 => self.ld_hl_p_a(),
                    _ => self.ld_hl_m_a(),
                },
                _ => match f.p {
                    0 => self.ld_a_bc(),
                    1 => self.ld_a_de(),
                    2 => self.ld_a_p_hl(),
                    _ => self.ld_a_m_hl(),
                },
            },
            3 => match Rp::from_u8(f.p) {
                Some(rp) => match f.q {
                    0 => self.inc_rp(rp),
                    _ => self.dec_rp(rp),
                },
                None => Err(Fault::UnknownOpcode),
            },
            4 => match R::from_u8(f.y) {
                Some(r) => self.inc_r(r),
                None => Err(Fault::UnknownOpcode),
            },
            5 => match R::from_u8(f.y) {
                Some(r) => self.dec_r(r),
                None => Err(Fault::UnknownOpcode),
            },
            6 => match R::from_u8(f.y) {
                Some(r) => self.ld_r_n(r),
                None => Err(Fault::UnknownOpcode),
            },
            _ => match f.y {
                0 => self.rlca(),
                1 => self.rrca(),
                2 => self.rla(),
                3 => self.rra(),
                4 => self.daa(),
                5 => self.cpl(),
                6 => self.scf(),
                _ => self.ccf(),
            },
        }
    }

    /// Carries out the operation `op` of the arithmetic and logic unit on the
    /// accumulator and the operand `r`.
    pub fn call_alu_r(&mut self, op: Alu, r: R) -> (done: Result<(), Fault>)
        ensures
            settled(old(self)@, final(self)@, done, old(self)@.alu_r(op, r)),
    {
        match op {
            Alu::AddA => self.add_a_r(r),
            Alu::AdcA => self.adc_a_r(r),
            Alu::Sub => self.sub_r(r),
            Alu::SbcA => self.sbc_a_r(r),
            Alu::And => self.and_a_r(r),
            Alu::Xor => self.xor_a_r(r),
            Alu::Or => self.or_a_r(r),
            Alu::Cp => self.cp_a_r(r),
        }
    }

    /// Carries out the operation `op` of the arithmetic and logic unit on the
    /// accumulator and the byte that follows the opcode.
    pub fn call_alu_n(&mut self, op: Alu) -> (done: Result<(), Fault>)
        ensures
            settled(old(self)@, final(self)@, done, old(self)@.alu_n(op)),
    {
        match op {
            Alu::AddA => self.add_a_n(),
            Alu::AdcA => self.adc_a_n(),
            Alu::Sub => self.sub_n(),
            Alu::SbcA => self.sbc_a_n(),
            Alu::And => self.and_a_n(),
            Alu::Xor => self.xor_a_n(),
            Alu::Or => self.or_a_n(),
            Alu::Cp => self.cp_a_n(),
        }
    }

    /// Carries out the instruction with the field `x` at 3 that the other
    /// fields pick.
    fn call_operation_x3(&mut self, f: Fields) -> (r: Result<(), Fault>)
        requires
            exists|opcode: u8| f == fields_of(opcode),
        ensures
            settled(old(self)@, final(self)@, r, old(self)@.execute_x3(f)),
    {
        match f.z {
            0 => match f.y {
                4 => self.ld_8n_a(),
                5 => self.add_sp_d(),
                6 => self.ld_a_8n(),
                7 => self.lh_hl_sp_d(),
                _ => match Cc::from_u8(f.y) {
                    Some(cc) => self.ret_cc(cc),
                    None => Err(Fault::UnknownOpcode),
                },
            },
            1 => match f.q {
                0 => match Rp2::from_u8(f.p) {
                    Some(rp2) => self.pop_rp2(rp2),
                    None => Err(Fault::UnknownOpcode),
                },
                _ => match f.p {
                    0 => self.ret(),
                    1 => self.reti(),
                    2 => self.jp_hl(),
                    _ => self.ld_sp_hl(),
                },
            },
            2 => match f.y {
                4 => self.ld_8c_a(),
                5 => self.ld_nn_a(),
                6 => self.ld_a_8c(),
                7 => self.ld_a_nn(),
                _ => match Cc::from_u8(f.y) {
                    Some(cc) => self.jp_cc_nn(cc),
                    None => Err(Fault::UnknownOpcode),
                },
            },
            3 => match f.y {
                0 => self.jp_nn(),
                1 => self.prefix(),
                6 => self.di(),
                7 => self.ei(),
                _ => Err(Fault::UnknownOpcode),
            },
            4 => match Cc::from_u8(f.y) {
                Some(cc) => self.call_cc_nn(cc),
                None => Err(Fault::UnknownOpcode),
            },
            5 => match f.q {
                0 => match Rp2::from_u8(f.p) {
                    Some(rp2) => self.push_rp2(rp2),
                    None => Err(Fault::UnknownOpcode),
                },
                _ => match f.p {
                    0 => self.call_nn(),
                    _ => Err(Fault::UnknownOpcode),
                },
            },
            6 => match Alu::from_u8(f.y) {
                Some(op) => self.call_alu_n(op),
                None => Err(Fault::UnknownOpcode),
            },
            _ => self.rst(f.y * 8),
        }
    }

    /// Carries out the instruction that `opcode` stands for. The program
    /// counter points past the opcode when this is called; the instruction
    /// moves it past the operand bytes it reads, or sets it where it jumps.
    pub fn call_operation(&mut self, opcode: u8) -> (r: Result<(), Fault>)
        ensures
            settled(old(self)@, final(self)@, r, old(self)@.execute(opcode)),
    {
        let f = Self::decompose(opcode);
        match f.x {
            0 => self.call_operation_x0(f),
            1 => {
                if f.z == 6 && f.y == 6 {
                    self.halt()
                } else {
                    match (R::from_u8(f.y), R::from_u8(f.z)) {
                        (Some(l), Some(r)) => self.ld_r_r(l, r),
                        _ => Err(Fault::UnknownOpcode),
                    }
                }
            },
            2 => match (Alu::from_u8(f.y), R::from_u8(f.z)) {
                (Some(op), Some(r)) => self.call_alu_r(op, r),
                _ => Err(Fault::UnknownOpcode),
            },
            _ => self.call_operation_x3(f),
        }
    }
}

} // verus!
