//! The SIB (scale-index-base) byte.
//!
//! ```text
//! 7                           0
//! +---+---+---+---+---+---+---+---+
//! | scale |   index   |    base   |
//! +---+---+---+---+---+---+---+---+
//! ```
//!
//! The index pattern `0b100` means "no index" rather than a register, and
//! the base pattern `0b101` takes its meaning from the ModRM `mod` bits
//! (with `mod = 0b00` it means "no base, disp32 follows").

use vstd::prelude::*;

use crate::errors::EncodeError;
use crate::register::{gp32_ordinal, GPReg32, Register};

verus! {

/// The two scale bits of a SIB byte: the index register's multiplier.
#[derive(PartialEq, Eq, Structural, Clone, Copy, Debug)]
pub enum Scale {
    /// `0b00`: the index is not multiplied.
    NoScale,
    /// `0b01`: index times 2.
    Scale2,
    /// `0b10`: index times 4.
    Scale4,
    /// `0b11`: index times 8.
    Scale8,
}

impl Scale {
    /// The two-bit pattern of this scale.
    pub open spec fn code_spec(self) -> u8 {
        match self {
            Scale::NoScale => 0,
            Scale::Scale2 => 1,
            Scale::Scale4 => 2,
            Scale::Scale8 => 3,
        }
    }

    /// Returns the two-bit pattern of this scale.
    pub fn code(self) -> (c: u8)
        ensures
            c == self.code_spec(),
    {
        match self {
            Scale::NoScale => 0,
            Scale::Scale2 => 1,
            Scale::Scale4 => 2,
            Scale::Scale8 => 3,
        }
    }
}

/// The three index bits of a SIB byte.
#[derive(PartialEq, Eq, Structural, Clone, Copy, Debug)]
pub enum Index {
    EAX,
    ECX,
    EDX,
    EBX,
    /// `0b100`: no index register.
    NoIndex,
    EBP,
    ESI,
    EDI,
}

impl Index {
    /// The three-bit pattern of this index field.
    pub open spec fn code_spec(self) -> u8 {
        match self {
            Index::EAX => 0,
            Index::ECX => 1,
            Index::EDX => 2,
            Index::EBX => 3,
            Index::NoIndex => 4,
            Index::EBP => 5,
            Index::ESI => 6,
            Index::EDI => 7,
        }
    }

    /// Returns the three-bit pattern of this index field.
    pub fn code(self) -> (c: u8)
        ensures
            c == self.code_spec(),
    {
        match self {
            Index::EAX => 0,
            Index::ECX => 1,
            Index::EDX => 2,
            Index::EBX => 3,
            Index::NoIndex => 4,
            Index::EBP => 5,
            Index::ESI => 6,
            Index::EDI => 7,
        }
    }
}

/// The three base bits of a SIB byte.
#[derive(PartialEq, Eq, Structural, Clone, Copy, Debug)]
pub enum Base {
    EAX,
    ECX,
    EDX,
    EBX,
    ESP,
    /// `0b101`: meaning depends on the ModRM `mod` bits; with `mod = 0b00`
    /// it means "no base, disp32 follows" and with other memory modes it
    /// names EBP.
    ModSpecific,
    ESI,
    EDI,
}

impl Base {
    /// The three-bit pattern of this base field.
    pub open spec fn code_spec(self) -> u8 {
        match self {
            Base::EAX => 0,
            Base::ECX => 1,
            Base::EDX => 2,
            Base::EBX => 3,
            Base::ESP => 4,
            Base::ModSpecific => 5,
            Base::ESI => 6,
            Base::EDI => 7,
        }
    }

    /// Returns the three-bit pattern of this base field.
    pub fn code(self) -> (c: u8)
        ensures
            c == self.code_spec(),
    {
        match self {
            Base::EAX => 0,
            Base::ECX => 1,
            Base::EDX => 2,
            Base::EBX => 3,
            Base::ESP => 4,
            Base::ModSpecific => 5,
            Base::ESI => 6,
            Base::EDI => 7,
        }
    }
}

/// The SIB byte packed from its three fields:
/// `(scale << 6) | (index << 3) | base`.
pub open spec fn sib_value(scale_bits: u8, index_bits: u8, base_bits: u8) -> u8
    recommends
        scale_bits < 4,
        index_bits < 8,
        base_bits < 8,
{
    (scale_bits << 6) | (index_bits << 3) | base_bits
}

/// Packs a SIB byte: `(scale << 6) | (index << 3) | base`.
pub fn gen_sib(scale: Scale, index: Index, base: Base) -> (b: u8)
    ensures
        b == sib_value(scale.code_spec(), index.code_spec(), base.code_spec()),
{
    let scale_value = scale.code() << 6u8;
    let index_value = index.code() << 3u8;
    let base_value = base.code();
    scale_value | index_value | base_value
}

/// The SIB index field a register converts to, if any.
///
/// ESP has no index encoding; its bit pattern is the "no index" escape, so
/// ESP converts to `Index::NoIndex`. Only 32-bit registers can index.
pub open spec fn index_role(register: Register) -> Result<Index, EncodeError> {
    match register {
        Register::GPR32(reg) => Ok(
            match reg {
                GPReg32::EAX => Index::EAX,
                GPReg32::ECX => Index::ECX,
                GPReg32::EDX => Index::EDX,
                GPReg32::EBX => Index::EBX,
                GPReg32::ESP => Index::NoIndex,
                GPReg32::EBP => Index::EBP,
                GPReg32::ESI => Index::ESI,
                GPReg32::EDI => Index::EDI,
            },
        ),
        _ => Err(EncodeError::UnsupportedRegisterClass),
    }
}

/// The SIB base field a register converts to, if any.
///
/// EBP's bit pattern is the mod-specific escape, so EBP converts to
/// `Base::ModSpecific`. Only 32-bit registers can be a SIB base.
pub open spec fn base_role(register: Register) -> Result<Base, EncodeError> {
    match register {
        Register::GPR32(reg) => Ok(
            match reg {
                GPReg32::EAX => Base::EAX,
                GPReg32::ECX => Base::ECX,
                GPReg32::EDX => Base::EDX,
                GPReg32::EBX => Base::EBX,
                GPReg32::ESP => Base::ESP,
                GPReg32::EBP => Base::ModSpecific,
                GPReg32::ESI => Base::ESI,
                GPReg32::EDI => Base::EDI,
            },
        ),
        _ => Err(EncodeError::UnsupportedRegisterClass),
    }
}

/// Converts a register into the SIB index field that names it.
///
/// Only a 32-bit general-purpose register can be an index; anything else is
/// `UnsupportedRegisterClass`. ESP's pattern is the "no index" escape, so it
/// converts to `Index::NoIndex`.
pub fn register_to_index(register: Register) -> (r: Result<Index, EncodeError>)
    ensures
        r == index_role(register),
        r matches Ok(idx) ==> register matches Register::GPR32(g) && (idx.code_spec()
            == gp32_ordinal(g) || (g == GPReg32::ESP && idx == Index::NoIndex)),
{
    match register {
        Register::GPR32(reg) => Ok(
            match reg {
                GPReg32::EAX => Index::EAX,
                GPReg32::ECX => Index::ECX,
                GPReg32::EDX => Index::EDX,
                GPReg32::EBX => Index::EBX,
                GPReg32::ESP => Index::NoIndex,
                GPReg32::EBP => Index::EBP,
                GPReg32::ESI => Index::ESI,
                GPReg32::EDI => Index::EDI,
            },
        ),
        _ => Err(EncodeError::UnsupportedRegisterClass),
    }
}

/// Converts a register into the SIB base field that names it.
///
/// Only a 32-bit general-purpose register can be a base; anything else is
/// `UnsupportedRegisterClass`. EBP's pattern is the mod-specific escape, so
/// it converts to `Base::ModSpecific`.
pub fn register_to_base(register: Register) -> (r: Result<Base, EncodeError>)
    ensures
        r == base_role(register),
        r matches Ok(base) ==> register matches Register::GPR32(g) && base.code_spec()
            == gp32_ordinal(g),
{
    match register {
        Register::GPR32(reg) => Ok(
            match reg {
                GPReg32::EAX => Base::EAX,
                GPReg32::ECX => Base::ECX,
                GPReg32::EDX => Base::EDX,
                GPReg32::EBX => Base::EBX,
                GPReg32::ESP => Base::ESP,
                GPReg32::EBP => Base::ModSpecific,
                GPReg32::ESI => Base::ESI,
                GPReg32::EDI => Base::EDI,
            },
        ),
        _ => Err(EncodeError::UnsupportedRegisterClass),
    }
}

} // verus!
