//! The ModRM byte.
//!
//! ```text
//!  7                           0
//! +---+---+---+---+---+---+---+---+
//! |  mod  |    reg    |     rm    |
//! +---+---+---+---+---+---+---+---+
//! ```
//!
//! `mod` selects the addressing mode, `reg` names a register operand, and
//! `rm` names a register-or-memory operand. Two `rm` patterns are escape
//! codes rather than registers: with any memory `mod`, `0b100` announces a
//! SIB byte, and with `mod = 0b00`, `0b101` announces a bare 32-bit
//! displacement.

use vstd::prelude::*;

use crate::errors::EncodeError;
use crate::register::{
    gp_ordinal, is_general_purpose, GPReg16, GPReg32, GPReg8, Register,
};

verus! {

/// The two `mod` bits of a ModRM byte.
#[derive(PartialEq, Eq, Structural, Clone, Copy, Debug)]
pub enum Mod {
    /// `0b00`: memory operand without displacement.
    NoDisp,
    /// `0b01`: memory operand with an 8-bit displacement.
    Disp8,
    /// `0b10`: memory operand with a 32-bit displacement.
    Disp32,
    /// `0b11`: the `rm` field names a register directly.
    Reg,
}

impl Mod {
    /// The two-bit pattern of this mode.
    pub open spec fn code_spec(self) -> u8 {
        match self {
            Mod::NoDisp => 0,
            Mod::Disp8 => 1,
            Mod::Disp32 => 2,
            Mod::Reg => 3,
        }
    }

    /// Returns the two-bit pattern of this mode.
    pub fn code(self) -> (c: u8)
        ensures
            c == self.code_spec(),
    {
        match self {
            Mod::NoDisp => 0,
            Mod::Disp8 => 1,
            Mod::Disp32 => 2,
            Mod::Reg => 3,
        }
    }
}

/// The three `rm` bits of a ModRM byte.
#[derive(PartialEq, Eq, Structural, Clone, Copy, Debug)]
pub enum Rm {
    R0,
    R1,
    R2,
    R3,
    /// With a memory `mod` this is the SIB escape, not a register.
    R4,
    /// With `mod = 0b00` this is the disp32 escape, not a register.
    R5,
    R6,
    R7,
}

impl Rm {
    /// The SIB escape pattern (`0b100` under a memory `mod`).
    pub const SPEC_SIB: Self = Self::R4;

    /// The disp32 escape pattern (`0b101` under `mod = 0b00`).
    pub const SPEC_DISP32: Self = Self::R5;

    /// EBP's pattern, which doubles as the disp32 escape under `mod = 0b00`.
    pub const SPEC_EBP: Self = Self::R5;
}

// 8-bit registers
impl Rm {
    pub const AL: Self = Self::R0;
    pub const CL: Self = Self::R1;
    pub const DL: Self = Self::R2;
    pub const BL: Self = Self::R3;
    pub const AH: Self = Self::R4;
    pub const CH: Self = Self::R5;
    pub const DH: Self = Self::R6;
    pub const BH: Self = Self::R7;
}

// 16-bit registers
impl Rm {
    pub const AX: Self = Self::R0;
    pub const CX: Self = Self::R1;
    pub const DX: Self = Self::R2;
    pub const BX: Self = Self::R3;
    pub const SP: Self = Self::R4;
    pub const BP: Self = Self::R5;
    pub const SI: Self = Self::R6;
    pub const DI: Self = Self::R7;
}

// 32-bit registers
impl Rm {
    pub const EAX: Self = Self::R0;
    pub const ECX: Self = Self::R1;
    pub const EDX: Self = Self::R2;
    pub const EBX: Self = Self::R3;
    pub const ESP: Self = Self::R4;
    pub const EBP: Self = Self::R5;
    pub const ESI: Self = Self::R6;
    pub const EDI: Self = Self::R7;
}

impl Rm {
    /// The three-bit pattern of this `rm` field.
    pub open spec fn code_spec(self) -> u8 {
        match self {
            Rm::R0 => 0,
            Rm::R1 => 1,
            Rm::R2 => 2,
            Rm::R3 => 3,
            Rm::R4 => 4,
            Rm::R5 => 5,
            Rm::R6 => 6,
            Rm::R7 => 7,
        }
    }

    /// Returns the three-bit pattern of this `rm` field.
    pub fn code(self) -> (c: u8)
        ensures
            c == self.code_spec(),
    {
        match self {
            Rm::R0 => 0,
            Rm::R1 => 1,
            Rm::R2 => 2,
            Rm::R3 => 3,
            Rm::R4 => 4,
            Rm::R5 => 5,
            Rm::R6 => 6,
            Rm::R7 => 7,
        }
    }
}

/// The three `reg` bits of a ModRM byte; always a register, never an escape.
#[derive(PartialEq, Eq, Structural, Clone, Copy, Debug)]
pub enum Reg {
    R0,
    R1,
    R2,
    R3,
    R4,
    R5,
    R6,
    R7,
}

// 8-bit registers
impl Reg {
    pub const AL: Self = Self::R0;
    pub const CL: Self = Self::R1;
    pub const DL: Self = Self::R2;
    pub const BL: Self = Self::R3;
    pub const AH: Self = Self::R4;
    pub const CH: Self = Self::R5;
    pub const DH: Self = Self::R6;
    pub const BH: Self = Self::R7;
}

// 16-bit registers
impl Reg {
    pub const AX: Self = Self::R0;
    pub const CX: Self = Self::R1;
    pub const DX: Self = Self::R2;
    pub const BX: Self = Self::R3;
    pub const SP: Self = Self::R4;
    pub const BP: Self = Self::R5;
    pub const SI: Self = Self::R6;
    pub const DI: Self = Self::R7;
}

// 32-bit registers
impl Reg {
    pub const EAX: Self = Self::R0;
    pub const ECX: Self = Self::R1;
    pub const EDX: Self = Self::R2;
    pub const EBX: Self = Self::R3;
    pub const ESP: Self = Self::R4;
    pub const EBP: Self = Self::R5;
    pub const ESI: Self = Self::R6;
    pub const EDI: Self = Self::R7;
}

impl Reg {
    /// The three-bit pattern of this `reg` field.
    pub open spec fn code_spec(self) -> u8 {
        match self {
            Reg::R0 => 0,
            Reg::R1 => 1,
            Reg::R2 => 2,
            Reg::R3 => 3,
            Reg::R4 => 4,
            Reg::R5 => 5,
            Reg::R6 => 6,
            Reg::R7 => 7,
        }
    }

    /// Returns the three-bit pattern of this `reg` field.
    pub fn code(self) -> (c: u8)
        ensures
            c == self.code_spec(),
    {
        match self {
            Reg::R0 => 0,
            Reg::R1 => 1,
            Reg::R2 => 2,
            Reg::R3 => 3,
            Reg::R4 => 4,
            Reg::R5 => 5,
            Reg::R6 => 6,
            Reg::R7 => 7,
        }
    }
}

/// The ModRM byte packed from its three fields:
/// `(mod << 6) | (reg << 3) | rm`.
pub open spec fn modrm_value(mod_bits: u8, reg_bits: u8, rm_bits: u8) -> u8
    recommends
        mod_bits < 4,
        reg_bits < 8,
        rm_bits < 8,
{
    (mod_bits << 6) | (reg_bits << 3) | rm_bits
}

/// Packs a ModRM byte: `(mod << 6) | (reg << 3) | rm`.
pub fn gen_modrm(mod_: Mod, rm: Rm, reg: Reg) -> (b: u8)
    ensures
        b == modrm_value(mod_.code_spec(), reg.code_spec(), rm.code_spec()),
{
    let mod_value = mod_.code() << 6u8;
    let src_value = reg.code() << 3u8;
    let dst_value = rm.code();
    mod_value | src_value | dst_value
}

/// Converts a register into the ModRM `rm` field that names it.
///
/// A segment register cannot stand in `rm`; that is
/// `UnsupportedRegisterClass`.
pub fn register_to_rm(register: Register) -> (r: Result<Rm, EncodeError>)
    ensures
        r == rm_role(register),
{
    match register {
        Register::GPR8(reg) => Ok(
            match reg {
                GPReg8::AL => Rm::AL,
                GPReg8::CL => Rm::CL,
                GPReg8::DL => Rm::DL,
                GPReg8::BL => Rm::BL,
                GPReg8::AH => Rm::AH,
                GPReg8::CH => Rm::CH,
                GPReg8::DH => Rm::DH,
                GPReg8::BH => Rm::BH,
            },
        ),
        Register::GPR16(reg) => Ok(
            match reg {
                GPReg16::AX => Rm::AX,
                GPReg16::CX => Rm::CX,
                GPReg16::DX => Rm::DX,
                GPReg16::BX => Rm::BX,
                GPReg16::SP => Rm::SP,
                GPReg16::BP => Rm::BP,
                GPReg16::SI => Rm::SI,
                GPReg16::DI => Rm::DI,
            },
        ),
        Register::GPR32(reg) => Ok(
            match reg {
                GPReg32::EAX => Rm::EAX,
                GPReg32::ECX => Rm::ECX,
                GPReg32::EDX => Rm::EDX,
                GPReg32::EBX => Rm::EBX,
                GPReg32::ESP => Rm::ESP,
                GPReg32::EBP => Rm::EBP,
                GPReg32::ESI => Rm::ESI,
                GPReg32::EDI => Rm::EDI,
            },
        ),
        Register::SegR(_) => Err(EncodeError::UnsupportedRegisterClass),
    }
}

/// Converts a register into the ModRM `reg` field that names it.
///
/// A segment register cannot stand in `reg`; that is
/// `UnsupportedRegisterClass`.
pub fn register_to_reg(register: Register) -> (r: Result<Reg, EncodeError>)
    ensures
        r == reg_role(register),
{
    match register {
        Register::GPR8(reg) => Ok(
            match reg {
                GPReg8::AL => Reg::AL,
                GPReg8::CL => Reg::CL,
                GPReg8::DL => Reg::DL,
                GPReg8::BL => Reg::BL,
                GPReg8::AH => Reg::AH,
                GPReg8::CH => Reg::CH,
                GPReg8::DH => Reg::DH,
                GPReg8::BH => Reg::BH,
            },
        ),
        Register::GPR16(reg) => Ok(
            match reg {
                GPReg16::AX => Reg::AX,
                GPReg16::CX => Reg::CX,
                GPReg16::DX => Reg::DX,
                GPReg16::BX => Reg::BX,
                GPReg16::SP => Reg::SP,
                GPReg16::BP => Reg::BP,
                GPReg16::SI => Reg::SI,
                GPReg16::DI => Reg::DI,
            },
        ),
        Register::GPR32(reg) => Ok(
            match reg {
                GPReg32::EAX => Reg::EAX,
                GPReg32::ECX => Reg::ECX,
                GPReg32::EDX => Reg::EDX,
                GPReg32::EBX => Reg::EBX,
                GPReg32::ESP => Reg::ESP,
                GPReg32::EBP => Reg::EBP,
                GPReg32::ESI => Reg::ESI,
                GPReg32::EDI => Reg::EDI,
            },
        ),
        Register::SegR(_) => Err(EncodeError::UnsupportedRegisterClass),
    }
}

/// Converting a register to its `reg` role and to its `rm` role yields the
/// same 3-bit ordinal, and the two conversions accept exactly the same
/// registers.
pub proof fn lemma_reg_rm_roles_agree(register: Register)
    ensures
        is_general_purpose(register) ==> {
            &&& rm_role(register) matches Ok(rm) && rm.code_spec() == gp_ordinal(register)
            &&& reg_role(register) matches Ok(reg) && reg.code_spec() == gp_ordinal(register)
        },
        !is_general_purpose(register) ==> rm_role(register) == Err::<Rm, EncodeError>(
            EncodeError::UnsupportedRegisterClass,
        ) && reg_role(register) == Err::<Reg, EncodeError>(EncodeError::UnsupportedRegisterClass),
{
}

/// The `rm` field a register converts to, if any.
pub open spec fn rm_role(register: Register) -> Result<Rm, EncodeError> {
    match register {
        Register::SegR(_) => Err(EncodeError::UnsupportedRegisterClass),
        _ => Ok(rm_of_ordinal(gp_ordinal(register))),
    }
}

/// The `reg` field a register converts to, if any.
pub open spec fn reg_role(register: Register) -> Result<Reg, EncodeError> {
    match register {
        Register::SegR(_) => Err(EncodeError::UnsupportedRegisterClass),
        _ => Ok(reg_of_ordinal(gp_ordinal(register))),
    }
}

/// The `rm` field with a given three-bit pattern.
pub open spec fn rm_of_ordinal(code: u8) -> Rm
    recommends
        code < 8,
{
    if code == 0 {
        Rm::R0
    } else if code == 1 {
        Rm::R1
    } else if code == 2 {
        Rm::R2
    } else if code == 3 {
        Rm::R3
    } else if code == 4 {
        Rm::R4
    } else if code == 5 {
        Rm::R5
    } else if code == 6 {
        Rm::R6
    } else {
        Rm::R7
    }
}

/// The `reg` field with a given three-bit pattern.
pub open spec fn reg_of_ordinal(code: u8) -> Reg
    recommends
        code < 8,
{
    if code == 0 {
        Reg::R0
    } else if code == 1 {
        Reg::R1
    } else if code == 2 {
        Reg::R2
    } else if code == 3 {
        Reg::R3
    } else if code == 4 {
        Reg::R4
    } else if code == 5 {
        Reg::R5
    } else if code == 6 {
        Reg::R6
    } else {
        Reg::R7
    }
}

} // verus!
