//! Memory-addressing expressions.

use vstd::prelude::*;

use crate::immediate::Immediate;
use crate::register::Register;

verus! {

/// An index register's multiplier in a scaled addressing expression.
#[derive(PartialEq, Eq, Structural, Clone, Copy, Debug)]
pub enum Scale {
    X2,
    X4,
    X8,
}

/// One of the seven memory-addressing shapes. Exactly the components listed
/// in a shape are populated; there are no implicit defaults.
#[derive(PartialEq, Eq, Structural, Clone, Copy, Debug)]
pub enum Memory {
    /// `[eax]`: register-indirect.
    Register(Register),
    /// `[0x00000000]`: absolute address.
    Immediate(Immediate),
    /// `[eax + 0x00000000]`: register plus displacement.
    RegisterDisplacement(Register, Immediate),
    /// `[eax + ebx]`: base plus index, no scale.
    BaseIndex(Register, Register),
    /// `[eax * 2]`: scaled index, no base.
    IndexScale(Register, Scale),
    /// `[eax + ebx * 4]`: base plus scaled index.
    BaseIndexScale(Register, Register, Scale),
    /// `[eax + ebx * 8 + 0x12345678]`: base plus scaled index plus
    /// displacement.
    BaseIndexScaleDisplacement(Register, Register, Scale, Immediate),
}

} // verus!
