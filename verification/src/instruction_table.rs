//! The read-only catalogue mapping a mnemonic kind and an operand-type
//! signature to an opcode byte sequence.
//!
//! Lookup is a linear scan that returns the first structurally matching row;
//! the table is authored so that no two rows for the same kind have
//! overlapping signatures.

use vstd::prelude::*;

verus! {

/// A mnemonic kind.
#[derive(PartialEq, Eq, Structural, Clone, Copy, Debug)]
pub enum Kind {
    Mov,
}

/// The coarse shape class a table row declares for one operand slot.
#[derive(PartialEq, Eq, Structural, Clone, Copy, Debug)]
pub enum OpType {
    /// The slot is unused.
    NoOperand,
    /// An 8-bit register or a memory expression.
    ModRm8,
    /// A 16- or 32-bit register or a memory expression.
    ModRm16_32,
    /// An 8-bit register only.
    Reg8,
    /// A 16- or 32-bit register only.
    Reg16_32,
}

/// One table row: an opcode byte sequence for a kind and an operand-type
/// signature. The opcode sequence is never empty.
#[derive(PartialEq, Eq, Debug)]
pub struct InstrInfo {
    /// The opcode bytes.
    pub op: Vec<u8>,
    /// The mnemonic kind the row encodes.
    pub kind: Kind,
    /// The declared class of the first operand.
    pub op_type1: OpType,
    /// The declared class of the second operand.
    pub op_type2: OpType,
}

/// The mathematical content of one table row: opcode bytes, kind and the two
/// operand classes.
pub struct RowModel {
    pub op: Seq<u8>,
    pub kind: Kind,
    pub op_type1: OpType,
    pub op_type2: OpType,
}

impl View for InstrInfo {
    type V = RowModel;

    open spec fn view(&self) -> RowModel {
        RowModel { op: self.op@, kind: self.kind, op_type1: self.op_type1, op_type2: self.op_type2 }
    }
}

impl InstrInfo {
    /// Builds a table row.
    pub fn new(op: Vec<u8>, kind: Kind, op_type1: OpType, op_type2: OpType) -> (r: InstrInfo)
        ensures
            r@.op == op@,
            r@.kind == kind,
            r@.op_type1 == op_type1,
            r@.op_type2 == op_type2,
    {
        InstrInfo { op, kind, op_type1, op_type2 }
    }
}

/// The rows of the instruction table, in scan order.
pub open spec fn table_model() -> Seq<RowModel> {
    seq![
        RowModel {
            op: seq![0x89u8],
            kind: Kind::Mov,
            op_type1: OpType::ModRm16_32,
            op_type2: OpType::Reg16_32,
        },
        RowModel {
            op: seq![0x8Bu8],
            kind: Kind::Mov,
            op_type1: OpType::Reg16_32,
            op_type2: OpType::ModRm16_32,
        },
    ]
}

/// Builds the instruction table.
pub fn instruction_table() -> (t: Vec<InstrInfo>)
    ensures
        t@.len() == table_model().len(),
        forall|i: int| 0 <= i < t@.len() ==> #[trigger] t@[i]@ == table_model()[i],
{
    let mut table: Vec<InstrInfo> = Vec::new();
    let mut op1: Vec<u8> = Vec::new();
    op1.push(0x89);
    table.push(InstrInfo::new(op1, Kind::Mov, OpType::ModRm16_32, OpType::Reg16_32));
    let mut op2: Vec<u8> = Vec::new();
    op2.push(0x8B);
    table.push(InstrInfo::new(op2, Kind::Mov, OpType::Reg16_32, OpType::ModRm16_32));
    proof {
        assert(table@[0]@.op =~= table_model()[0].op);
        assert(table@[1]@.op =~= table_model()[1].op);
        assert(table@[0]@ =~= table_model()[0]);
        assert(table@[1]@ =~= table_model()[1]);
    }
    table
}

/// Whether a row answers a query made of a kind and two optional class
/// filters: the kind must be equal, and each given filter must equal the
/// row's declared class.
pub open spec fn row_answers(
    row: RowModel,
    kind: Kind,
    op_type1: Option<OpType>,
    op_type2: Option<OpType>,
) -> bool {
    &&& row.kind == kind
    &&& (op_type1 matches Some(t) ==> row.op_type1 == t)
    &&& (op_type2 matches Some(t) ==> row.op_type2 == t)
}

/// The first row at or after position `i` that answers the query.
pub open spec fn lookup_from(
    kind: Kind,
    op_type1: Option<OpType>,
    op_type2: Option<OpType>,
    i: nat,
) -> Option<RowModel>
    decreases table_model().len() - i,
{
    if i >= table_model().len() {
        None
    } else if row_answers(table_model()[i as int], kind, op_type1, op_type2) {
        Some(table_model()[i as int])
    } else {
        lookup_from(kind, op_type1, op_type2, (i + 1) as nat)
    }
}

/// The first table row that answers the query, if any.
pub open spec fn lookup(kind: Kind, op_type1: Option<OpType>, op_type2: Option<OpType>) -> Option<
    RowModel,
> {
    lookup_from(kind, op_type1, op_type2, 0)
}

/// Looks up the first table row whose kind equals `kind` and whose declared
/// operand classes equal the given filters; a `None` filter matches any
/// class. Returns `None` when no row matches.
pub fn query_instruction(kind: Kind, op_type1: Option<OpType>, op_type2: Option<OpType>) -> (r:
    Option<InstrInfo>)
    ensures
        match r {
            Some(info) => lookup(kind, op_type1, op_type2) == Some(info@),
            None => lookup(kind, op_type1, op_type2) is None,
        },
{
    let mut table = instruction_table();
    let mut i: usize = 0;
    while i < table.len()
        invariant
            i <= table@.len(),
            table@.len() == table_model().len(),
            forall|j: int| 0 <= j < table@.len() ==> #[trigger] table@[j]@ == table_model()[j],
            lookup(kind, op_type1, op_type2) == lookup_from(kind, op_type1, op_type2, i as nat),
        decreases table@.len() - i,
    {
        let row = &table[i];
        proof {
            assert(*row == table@[i as int]);
            assert(table@[i as int]@ == table_model()[i as int]);
        }
        let kind_matches = row.kind == kind;
        let op1_matches = match op_type1 {
            Some(t) => row.op_type1 == t,
            None => true,
        };
        let op2_matches = match op_type2 {
            Some(t) => row.op_type2 == t,
            None => true,
        };
        if kind_matches && op1_matches && op2_matches {
            let found = table.remove(i);
            return Some(found);
        }
        proof {
            assert(lookup_from(kind, op_type1, op_type2, i as nat) == lookup_from(
                kind,
                op_type1,
                op_type2,
                (i + 1) as nat,
            ));
        }
        i = i + 1;
    }
    None
}

} // verus!
