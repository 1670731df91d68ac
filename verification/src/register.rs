//! The closed set of CPU registers the encoder knows about.
//!
//! A register is identified by its width class and a 3-bit ordinal within
//! that class; segment registers form a class of their own that has no
//! addressing support.

use vstd::prelude::*;

verus! {

/// A CPU register: one of the general-purpose width classes, or a segment
/// register.
#[derive(PartialEq, Eq, Structural, Clone, Copy, Debug)]
pub enum Register {
    GPR8(GPReg8),
    GPR16(GPReg16),
    GPR32(GPReg32),
    SegR(Segment),
}

/// The 8-bit general-purpose registers, in ordinal order.
#[derive(PartialEq, Eq, Structural, Clone, Copy, Debug)]
pub enum GPReg8 {
    AL,
    CL,
    DL,
    BL,
    AH,
    CH,
    DH,
    BH,
}

/// The 16-bit general-purpose registers, in ordinal order.
#[derive(PartialEq, Eq, Structural, Clone, Copy, Debug)]
pub enum GPReg16 {
    AX,
    CX,
    DX,
    BX,
    SP,
    BP,
    SI,
    DI,
}

/// The 32-bit general-purpose registers, in ordinal order.
#[derive(PartialEq, Eq, Structural, Clone, Copy, Debug)]
pub enum GPReg32 {
    EAX,
    ECX,
    EDX,
    EBX,
    ESP,
    EBP,
    ESI,
    EDI,
}

/// The segment registers; they are never valid as addressing-mode
/// components.
#[derive(PartialEq, Eq, Structural, Clone, Copy, Debug)]
pub enum Segment {
    ES,
    CS,
    SS,
    DS,
    FS,
    GS,
}

/// The 3-bit ordinal of an 8-bit register.
pub open spec fn gp8_ordinal(r: GPReg8) -> u8 {
    match r {
        GPReg8::AL => 0,
        GPReg8::CL => 1,
        GPReg8::DL => 2,
        GPReg8::BL => 3,
        GPReg8::AH => 4,
        GPReg8::CH => 5,
        GPReg8::DH => 6,
        GPReg8::BH => 7,
    }
}

/// The 3-bit ordinal of a 16-bit register.
pub open spec fn gp16_ordinal(r: GPReg16) -> u8 {
    match r {
        GPReg16::AX => 0,
        GPReg16::CX => 1,
        GPReg16::DX => 2,
        GPReg16::BX => 3,
        GPReg16::SP => 4,
        GPReg16::BP => 5,
        GPReg16::SI => 6,
        GPReg16::DI => 7,
    }
}

/// The 3-bit ordinal of a 32-bit register.
pub open spec fn gp32_ordinal(r: GPReg32) -> u8 {
    match r {
        GPReg32::EAX => 0,
        GPReg32::ECX => 1,
        GPReg32::EDX => 2,
        GPReg32::EBX => 3,
        GPReg32::ESP => 4,
        GPReg32::EBP => 5,
        GPReg32::ESI => 6,
        GPReg32::EDI => 7,
    }
}

/// Whether a register belongs to one of the general-purpose classes.
pub open spec fn is_general_purpose(r: Register) -> bool {
    !(r is SegR)
}

/// The 3-bit ordinal of a general-purpose register within its width class.
pub open spec fn gp_ordinal(r: Register) -> u8
    recommends
        is_general_purpose(r),
{
    match r {
        Register::GPR8(x) => gp8_ordinal(x),
        Register::GPR16(x) => gp16_ordinal(x),
        Register::GPR32(x) => gp32_ordinal(x),
        Register::SegR(_) => 0,
    }
}

} // verus!
