//! Literal values embedded in an instruction.
//!
//! An immediate carries its width with it; it is always emitted
//! little-endian, with exactly as many bytes as its width.

use vstd::prelude::*;

verus! {

/// A literal value of a fixed width, encoded little-endian.
#[derive(PartialEq, Eq, Structural, Clone, Copy, Debug)]
pub enum Immediate {
    U8(u8),
    U16(u16),
    U32(u32),
}

impl Immediate {
    /// The numeric value of the immediate, whatever its width.
    pub open spec fn value_spec(self) -> u32 {
        match self {
            Immediate::U8(v) => v as u32,
            Immediate::U16(v) => v as u32,
            Immediate::U32(v) => v,
        }
    }

    /// Returns the numeric value of the immediate, whatever its width.
    pub fn value(self) -> (v: u32)
        ensures
            v == self.value_spec(),
    {
        match self {
            Immediate::U8(v) => v as u32,
            Immediate::U16(v) => v as u32,
            Immediate::U32(v) => v,
        }
    }

    /// The little-endian byte encoding of the immediate, sized to its width.
    pub open spec fn le_bytes(self) -> Seq<u8> {
        match self {
            Immediate::U8(v) => seq![v],
            Immediate::U16(v) => seq![(v & 0xff) as u8, ((v >> 8) & 0xff) as u8],
            Immediate::U32(v) => le32_bytes(v),
        }
    }
}

/// The four little-endian bytes of a 32-bit value.
pub open spec fn le32_bytes(v: u32) -> Seq<u8> {
    seq![
        (v & 0xff) as u8,
        ((v >> 8) & 0xff) as u8,
        ((v >> 16) & 0xff) as u8,
        ((v >> 24) & 0xff) as u8,
    ]
}

} // verus!
