//! The expression nodes of the small language's syntax tree.

use vstd::prelude::*;

use crate::ast_visitor::AstVisitor;

verus! {

/// A binary operator.
#[derive(Debug, PartialEq, Eq, Structural, Clone, Copy)]
pub enum BinaryOperator {
    Plus,
    Minus,
    Multiply,
    Divide,
}

/// A unary operator.
#[derive(Debug, PartialEq, Eq, Structural, Clone, Copy)]
pub enum UnaryOperator {
    Plus,
    Minus,
}

/// An expression: a binary application, a unary application, or an integer
/// literal.
#[derive(Debug, PartialEq, Eq)]
pub enum Expression {
    Binary(BinaryOperator, Box<Expression>, Box<Expression>),
    Unary(UnaryOperator, Box<Expression>),
    Integer(i64),
}

impl Expression {
    /// The height of the expression tree; a measure for walking it.
    pub open spec fn height(self) -> nat
        decreases self,
    {
        match self {
            Expression::Binary(_, left, right) => 1 + vstd::math::max(
                (*left).height() as int,
                (*right).height() as int,
            ) as nat,
            Expression::Unary(_, inner) => 1 + (*inner).height(),
            Expression::Integer(_) => 0,
        }
    }

    /// Hands this expression to a visitor.
    pub fn accept<R, E, V>(&mut self, visitor: V) -> Result<R, E> where
        V: AstVisitor<Value = R, Error = E>,
    {
        let mut visitor = visitor;
        visitor.visit_expression(self)
    }
}

} // verus!
