//! The operands that an opcode's bit-fields select.
use vstd::prelude::*;

verus! {

/// A condition that a jump, call or return may depend on.
#[derive(Clone, Copy, Debug, PartialEq, Eq)]
pub enum Cc {
    Nz,
    Z,
    Nc,
    C,
}

impl Cc {
    /// The condition with the number `n`, counted from zero.
    pub open spec fn of(n: u8) -> Cc {
        if n == 0 {
            Cc::Nz
        } else if n == 1 {
            Cc::Z
        } else if n == 2 {
            Cc::Nc
        } else {
            Cc::C
        }
    }

    /// The condition with the number `n`, if `n` is below 4.
    pub fn from_u8(n: u8) -> (found: Option<Cc>)
        ensures
            found == (if n < 4 {
                Some(Cc::of(n))
            } else {
                None
            }),
    {
        match n {
            0 => Some(Cc::Nz),
            1 => Some(Cc::Z),
            2 => Some(Cc::Nc),
            3 => Some(Cc::C),
            _ => None,
        }
    }
}

/// A register pair, in the table where the fourth pair is the stack pointer.
#[derive(Clone, Copy, Debug, PartialEq, Eq)]
pub enum Rp {
    Bc,
    De,
    Hl,
    Sp,
}

impl Rp {
    /// The pair with the number `n`, counted from zero.
    pub open spec fn of(n: u8) -> Rp {
        if n == 0 {
            Rp::Bc
        } else if n == 1 {
            Rp::De
        } else if n == 2 {
            Rp::Hl
        } else {
            Rp::Sp
        }
    }

    /// The pair with the number `n`, if `n` is below 4.
    pub fn from_u8(n: u8) -> (found: Option<Rp>)
        ensures
            found == (if n < 4 {
                Some(Rp::of(n))
            } else {
                None
            }),
    {
        match n {
            0 => Some(Rp::Bc),
            1 => Some(Rp::De),
            2 => Some(Rp::Hl),
            3 => Some(Rp::Sp),
            _ => None,
        }
    }
}

/// A register pair, in the table where the fourth pair is the accumulator
/// with the flags.
#[derive(Clone, Copy, Debug, PartialEq, Eq)]
pub enum Rp2 {
    Bc,
    De,
    Hl,
    Af,
}

impl Rp2 {
    /// The pair with the number `n`, counted from zero.
    pub open spec fn of(n: u8) -> Rp2 {
        if n == 0 {
            Rp2::Bc
        } else if n == 1 {
            Rp2::De
        } else if n == 2 {
            Rp2::Hl
        } else {
            Rp2::Af
        }
    }

    /// The pair with the number `n`, if `n` is below 4.
    pub fn from_u8(n: u8) -> (found: Option<Rp2>)
        ensures
            found == (if n < 4 {
                Some(Rp2::of(n))
            } else {
                None
            }),
    {
        match n {
            0 => Some(Rp2::Bc),
            1 => Some(Rp2::De),
            2 => Some(Rp2::Hl),
            3 => Some(Rp2::Af),
            _ => None,
        }
    }
}

/// An 8-bit operand: a register, or, for `Hl`, the byte in memory at the
/// address that the pair HL holds.
#[derive(Clone, Copy, Debug, PartialEq, Eq)]
pub enum R {
    B,
    C,
    D,
    E,
    H,
    L,
    Hl,
    A,
}

impl R {
    /// The operand with the number `n`, counted from zero.
    pub open spec fn of(n: u8) -> R {
        if n == 0 {
            R::B
        } else if n == 1 {
            R::C
        } else if n == 2 {
            R::D
        } else if n == 3 {
            R::E
        } else if n == 4 {
            R::H
        } else if n == 5 {
            R::L
        } else if n == 6 {
            R::Hl
        } else {
            R::A
        }
    }

    /// The operand with the number `n`, if `n` is below 8.
    pub fn from_u8(n: u8) -> (found: Option<R>)
        ensures
            found == (if n < 8 {
                Some(R::of(n))
            } else {
                None
            }),
    {
        match n {
            0 => Some(R::B),
            1 => Some(R::C),
            2 => Some(R::D),
            3 => Some(R::E),
            4 => Some(R::H),
            5 => Some(R::L),
            6 => Some(R::Hl),
            7 => Some(R::A),
            _ => None,
        }
    }
}

/// An operation of the arithmetic and logic unit on the accumulator.
#[derive(Clone, Copy, Debug, PartialEq, Eq)]
pub enum Alu {
    AddA,
    AdcA,
    Sub,
    SbcA,
    And,
    Xor,
    Or,
    Cp,
}

impl Alu {
    /// The operation with the number `n`, counted from zero.
    pub open spec fn of(n: u8) -> Alu {
        if n == 0 {
            Alu::AddA
        } else if n == 1 {
            Alu::AdcA
        } else if n == 2 {
            Alu::Sub
        } else if n == 3 {
            Alu::SbcA
        } else if n == 4 {
            Alu::And
        } else if n == 5 {
            Alu::Xor
        } else if n == 6 {
            Alu::Or
        } else {
            Alu::Cp
        }
    }

    /// The operation with the number `n`, if `n` is below 8.
    pub fn from_u8(n: u8) -> (found: Option<Alu>)
        ensures
            found == (if n < 8 {
                Some(Alu::of(n))
            } else {
                None
            }),
    {
        match n {
            0 => Some(Alu::AddA),
            1 => Some(Alu::AdcA),
            2 => Some(Alu::Sub),
            3 => Some(Alu::SbcA),
            4 => Some(Alu::And),
            5 => Some(Alu::Xor),
            6 => Some(Alu::Or),
            7 => Some(Alu::Cp),
            _ => None,
        }
    }
}

/// A rotation or shift of the prefixed page.
#[derive(Clone, Copy, Debug, PartialEq, Eq)]
pub enum Rot {
    Rlc,
    Rrc,
    Rl,
    Rr,
    Sla,
    Sra,
    Swap,
    Srl,
}

impl Rot {
    /// The rotation with the number `n`, counted from zero.
    pub open spec fn of(n: u8) -> Rot {
        if n == 0 {
            Rot::Rlc
        } else if n == 1 {
            Rot::Rrc
        } else if n == 2 {
            Rot::Rl
        } else if n == 3 {
            Rot::Rr
        } else if n == 4 {
            Rot::Sla
        } else if n == 5 {
            Rot::Sra
        } else if n == 6 {
            Rot::Swap
        } else {
            Rot::Srl
        }
    }

    /// The rotation with the number `n`, if `n` is below 8.
    pub fn from_u8(n: u8) -> (found: Option<Rot>)
        ensures
            found == (if n < 8 {
                Some(Rot::of(n))
            } else {
                None
            }),
    {
        match n {
            0 => Some(Rot::Rlc),
            1 => Some(Rot::Rrc),
            2 => Some(Rot::Rl),
            3 => Some(Rot::Rr),
            4 => Some(Rot::Sla),
            5 => Some(Rot::Sra),
            6 => Some(Rot::Swap),
            7 => Some(Rot::Srl),
            _ => None,
        }
    }
}

} // verus!
