//! The error values an encoding request can come back with.
//!
//! Every error is detected synchronously, is local to one encoding call, and
//! is returned to the caller as an inspectable value; nothing panics and
//! nothing is retried.

use vstd::prelude::*;

verus! {

/// Why an instruction could not be encoded.
#[derive(PartialEq, Eq, Structural, Clone, Copy, Debug)]
pub enum EncodeError {
    /// No instruction-table row matches the requested mnemonic kind and
    /// operand-type signature.
    InstructionNotFound,
    /// The second operand is not a register, or the supplied operand shapes
    /// do not match the table row's declared type classes.
    InvalidOperandRoles,
    /// A segment register (a class without addressing support) appears where
    /// a general-purpose register is required.
    UnsupportedRegisterClass,
    /// The requested memory shape's base or index register collides with a
    /// ModRM/SIB escape code, so the shape cannot be represented without
    /// changing the addressing mode.
    AddressingModeConflict,
}

} // verus!
