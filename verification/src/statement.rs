//! The statement nodes of the small language's syntax tree.

use vstd::prelude::*;

use crate::ast_visitor::AstVisitor;
use crate::expression::Expression;

verus! {

/// A statement: a bare expression, or a `let` binding.
#[derive(Debug, PartialEq, Eq)]
pub enum Statement {
    Expression(Expression),
    Let { name: String, expression: Option<Expression> },
}

impl Statement {
    /// The height of the tallest expression in the statement; a measure for
    /// walking it.
    pub open spec fn height(self) -> nat {
        match self {
            Statement::Expression(e) => e.height(),
            Statement::Let { name: _, expression } => match expression {
                Some(e) => e.height(),
                None => 0,
            },
        }
    }

    /// Hands this statement to a visitor.
    pub fn accept<V, E, VI>(&mut self, visitor: VI) -> Result<V, E> where
        VI: AstVisitor<Value = V, Error = E>,
    {
        let mut visitor = visitor;
        visitor.visit_statement(self)
    }
}

} // verus!
