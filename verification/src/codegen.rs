//! The encoder: orchestrates table lookup and the addressing resolver, and
//! accumulates encoded instructions in an owned, append-only byte buffer.
//!
//! `encode` appends the machine code of one instruction:
//! `{opcode bytes}{ModRM}{SIB?}{displacement/absolute bytes?}`. Multiple
//! instructions accumulate in call order with no reordering. Every failure
//! is returned as an `EncodeError` value and leaves the buffer untouched.

use vstd::prelude::*;

use crate::errors::EncodeError;
use crate::instruction_table::{
    instruction_table, table_model, InstrInfo, Kind, OpType, RowModel,
};
use crate::operand::Operand;
use crate::register::Register;
use crate::utils;
use crate::utils::modrm_bytes;

verus! {

/// Whether an operand fits a declared operand-type class of a table row.
pub open spec fn operand_fits(declared: OpType, operand: Operand) -> bool {
    match declared {
        OpType::NoOperand => false,
        OpType::ModRm8 => operand matches Operand::Memory(_) || operand matches Operand::Register(
            Register::GPR8(_),
        ),
        OpType::ModRm16_32 => operand matches Operand::Memory(_) || operand matches
            Operand::Register(Register::GPR16(_)) || operand matches Operand::Register(
            Register::GPR32(_),
        ),
        OpType::Reg8 => operand matches Operand::Register(Register::GPR8(_)),
        OpType::Reg16_32 => operand matches Operand::Register(Register::GPR16(_)) || operand
            matches Operand::Register(Register::GPR32(_)),
    }
}

/// The first table row at or after position `i` whose kind matches and whose
/// declared classes fit the two operands.
pub open spec fn select_row_from(kind: Kind, operand1: Operand, operand2: Operand, i: nat) -> Option<
    RowModel,
>
    decreases table_model().len() - i,
{
    if i >= table_model().len() {
        None
    } else if table_model()[i as int].kind == kind && operand_fits(
        table_model()[i as int].op_type1,
        operand1,
    ) && operand_fits(table_model()[i as int].op_type2, operand2) {
        Some(table_model()[i as int])
    } else {
        select_row_from(kind, operand1, operand2, (i + 1) as nat)
    }
}

/// The first table row that encodes this kind with these operand shapes.
pub open spec fn select_row(kind: Kind, operand1: Operand, operand2: Operand) -> Option<RowModel> {
    select_row_from(kind, operand1, operand2, 0)
}

/// The bytes one encoding request appends, or the error it fails with.
///
/// The role invariant comes first: the second operand must be a register,
/// and a segment register may stand nowhere. Then the table is consulted,
/// and the addressing resolver supplies the bytes after the opcode.
pub open spec fn spec_encode(kind: Kind, operand1: Operand, operand2: Operand) -> Result<
    Seq<u8>,
    EncodeError,
> {
    match operand2 {
        Operand::Memory(_) => Err(EncodeError::InvalidOperandRoles),
        Operand::Register(r2) => if r2 is SegR {
            Err(EncodeError::UnsupportedRegisterClass)
        } else if operand1 matches Operand::Register(r1) && r1 is SegR {
            Err(EncodeError::UnsupportedRegisterClass)
        } else {
            match select_row(kind, operand1, operand2) {
                None => Err(EncodeError::InstructionNotFound),
                Some(row) => match modrm_bytes(operand1, operand2) {
                    Err(e) => Err(e),
                    Ok(bytes) => Ok(row.op + bytes),
                },
            }
        },
    }
}

/// Encoding with a memory second operand fails with `InvalidOperandRoles`,
/// whatever the kind, the first operand and the memory shape.
pub proof fn lemma_memory_operand2_rejected(kind: Kind, operand1: Operand, m: Operand)
    requires
        m is Memory,
    ensures
        spec_encode(kind, operand1, m) == Err::<Seq<u8>, EncodeError>(
            EncodeError::InvalidOperandRoles,
        ),
{
}

/// The machine-code generator: an exclusively owned, append-only buffer of
/// encoded instructions.
pub struct Codegen {
    buffer: Vec<u8>,
}

impl View for Codegen {
    type V = Seq<u8>;

    closed spec fn view(&self) -> Seq<u8> {
        self.buffer@
    }
}

impl Codegen {
    /// Creates a generator with an empty buffer.
    pub fn new() -> (r: Codegen)
        ensures
            r@ == Seq::<u8>::empty(),
    {
        Codegen { buffer: Vec::new() }
    }

    /// Returns the accumulated byte sequence.
    pub fn get_bytes(&self) -> (r: &[u8])
        ensures
            r@ == self@,
    {
        self.buffer.as_slice()
    }

    /// Appends raw bytes to the buffer.
    pub fn emit_bytes(&mut self, bytes: &[u8])
        ensures
            final(self)@ == old(self)@ + bytes@,
    {
        let ghost start = self.buffer@;
        let mut i: usize = 0;
        while i < bytes.len()
            invariant
                i <= bytes@.len(),
                self.buffer@ == start + bytes@.subrange(0, i as int),
            decreases bytes@.len() - i,
        {
            self.buffer.push(bytes[i]);
            proof {
                assert(self.buffer@ =~= start + bytes@.subrange(0, i + 1 as int));
            }
            i = i + 1;
        }
        proof {
            assert(bytes@.subrange(0, bytes@.len() as int) =~= bytes@);
        }
    }

    /// Encodes one instruction and appends its bytes:
    /// `{opcode}{ModRM}{SIB?}{displacement?}`. On failure the buffer is
    /// unchanged and the error says exactly what was wrong.
    pub fn encode(&mut self, kind: Kind, operand1: Operand, operand2: Operand) -> (r: Result<
        (),
        EncodeError,
    >)
        ensures
            match r {
                Ok(_) => spec_encode(kind, operand1, operand2) matches Ok(bytes) && final(self)@
                    == old(self)@ + bytes,
                Err(e) => spec_encode(kind, operand1, operand2) == Err::<Seq<u8>, EncodeError>(e)
                    && final(self)@ == old(self)@,
            },
    {
        let reg2 = match operand2 {
            Operand::Memory(_) => {
                return Err(EncodeError::InvalidOperandRoles);
            },
            Operand::Register(r2) => r2,
        };
        if let Register::SegR(_) = reg2 {
            return Err(EncodeError::UnsupportedRegisterClass);
        }
        if let Operand::Register(r1) = operand1 {
            if let Register::SegR(_) = r1 {
                return Err(EncodeError::UnsupportedRegisterClass);
            }
        }
        let row = match Self::select_table_row(kind, operand1, operand2) {
            None => {
                return Err(EncodeError::InstructionNotFound);
            },
            Some(row) => row,
        };
        let mut tail: Vec<u8> = Vec::new();
        match utils::emit_modrm_byte(operand1, operand2, &mut tail) {
            Ok(_) => {},
            Err(e) => {
                return Err(e);
            },
        }
        self.emit_bytes(row.op.as_slice());
        self.emit_bytes(tail.as_slice());
        proof {
            assert(self.buffer@ =~= old(self).buffer@ + spec_encode(
                kind,
                operand1,
                operand2,
            ).unwrap());
        }
        Ok(())
    }

    /// Scans the instruction table for the first row that encodes this kind
    /// with these operand shapes.
    fn select_table_row(kind: Kind, operand1: Operand, operand2: Operand) -> (r: Option<InstrInfo>)
        ensures
            match r {
                Some(info) => select_row(kind, operand1, operand2) == Some(info@),
                None => select_row(kind, operand1, operand2) is None,
            },
    {
        let mut table = instruction_table();
        let mut i: usize = 0;
        while i < table.len()
            invariant
                i <= table@.len(),
                table@.len() == table_model().len(),
                forall|j: int| 0 <= j < table@.len() ==> #[trigger] table@[j]@ == table_model()[j],
                select_row(kind, operand1, operand2) == select_row_from(
                    kind,
                    operand1,
                    operand2,
                    i as nat,
                ),
            decreases table@.len() - i,
        {
            let row = &table[i];
            proof {
                assert(*row == table@[i as int]);
                assert(table@[i as int]@ == table_model()[i as int]);
            }
            if row.kind == kind && Self::operand_fits_exec(row.op_type1, operand1)
                && Self::operand_fits_exec(row.op_type2, operand2) {
                let found = table.remove(i);
                return Some(found);
            }
            proof {
                assert(select_row_from(kind, operand1, operand2, i as nat) == select_row_from(
                    kind,
                    operand1,
                    operand2,
                    (i + 1) as nat,
                ));
            }
            i = i + 1;
        }
        None
    }

    /// Decides whether an operand fits a declared operand-type class.
    fn operand_fits_exec(declared: OpType, operand: Operand) -> (b: bool)
        ensures
            b == operand_fits(declared, operand),
    {
        match declared {
            OpType::NoOperand => false,
            OpType::ModRm8 => match operand {
                Operand::Memory(_) => true,
                Operand::Register(r) => matches!(r, Register::GPR8(_)),
            },
            OpType::ModRm16_32 => match operand {
                Operand::Memory(_) => true,
                Operand::Register(r) => matches!(r, Register::GPR16(_) | Register::GPR32(_)),
            },
            OpType::Reg8 => match operand {
                Operand::Register(r) => matches!(r, Register::GPR8(_)),
                Operand::Memory(_) => false,
            },
            OpType::Reg16_32 => match operand {
                Operand::Register(r) => matches!(r, Register::GPR16(_) | Register::GPR32(_)),
                Operand::Memory(_) => false,
            },
        }
    }

    /// Encodes a `mov` instruction: appends its machine code to the buffer,
    /// or returns the error and leaves the buffer unchanged.
    pub fn mov(&mut self, operand1: Operand, operand2: Operand) -> (r: Result<(), EncodeError>)
        ensures
            match r {
                Ok(_) => spec_encode(Kind::Mov, operand1, operand2) matches Ok(bytes) && final(self)@ == old(self)@ + bytes,
                Err(e) => spec_encode(Kind::Mov, operand1, operand2) == Err::<Seq<u8>, EncodeError>(e) && final(self)@ == old(self)@,
            },
    {
        self.encode(Kind::Mov, operand1, operand2)
    }
}

} // verus!
