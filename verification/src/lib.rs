//! A 32-bit x86 instruction encoder with a small front end.
//!
//! The crate turns an abstract instruction description (a mnemonic kind and
//! up to two operands) into the exact byte sequence the CPU decodes,
//! following the ModRM/SIB addressing-mode rules, and provides the lexer and
//! recursive-descent parser of a small expression language.

pub mod errors;
pub mod register;
pub mod immediate;
pub mod memory;
pub mod operand;
pub mod modrm;
pub mod sib;
pub mod instruction_table;
pub mod utils;
pub mod codegen;
pub mod token;
pub mod lexer;
pub mod expression;
pub mod statement;
pub mod ast_visitor;
pub mod parser;

