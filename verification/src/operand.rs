//! Instruction operands.

use vstd::prelude::*;

use crate::memory::Memory;
use crate::register::Register;

verus! {

/// An instruction operand: a register, or a memory-addressing expression.
#[derive(PartialEq, Eq, Structural, Clone, Copy, Debug)]
pub enum Operand {
    Register(Register),
    Memory(Memory),
}

} // verus!
