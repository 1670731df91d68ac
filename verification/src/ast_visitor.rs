//! Visitors over the syntax tree, and a default visitor that walks every
//! node and produces a default value.

use core::marker::PhantomData;
use vstd::prelude::*;

use crate::expression::{BinaryOperator, Expression, UnaryOperator};
use crate::statement::Statement;

verus! {

/// A visitor over statements and expressions.
pub trait AstVisitor {
    /// What a visit produces.
    type Value;

    /// How a visit fails.
    type Error;

    fn visit_statement(&mut self, statement: &Statement) -> Result<Self::Value, Self::Error>;

    fn visit_statement_expression(&mut self, expression: &Expression) -> Result<
        Self::Value,
        Self::Error,
    >;

    fn visit_let_statement(&mut self, name: &str, expression: Option<&Expression>) -> Result<
        Self::Value,
        Self::Error,
    >;

    fn visit_expression(&mut self, expression: &Expression) -> Result<Self::Value, Self::Error>;

    fn visit_binary(
        &mut self,
        operator: &BinaryOperator,
        left_expression: &Expression,
        right_expression: &Expression,
    ) -> Result<Self::Value, Self::Error>;

    fn visit_unary(&mut self, operator: &UnaryOperator, expression: &Expression) -> Result<
        Self::Value,
        Self::Error,
    >;

    fn visit_number(&mut self, value: i64) -> Result<Self::Value, Self::Error>;
}

/// A visitor that walks every node and produces `V::default()`.
pub struct DefaultAstVisitor<V, E> {
    _phantom: (PhantomData<V>, PhantomData<E>),
}

impl<V, E> DefaultAstVisitor<V, E> {
    /// Creates the default visitor.
    pub fn new() -> (r: Self) {
        Self { _phantom: (PhantomData, PhantomData) }
    }
}

impl<V, E> AstVisitor for DefaultAstVisitor<V, E> where V: Default {
    type Value = V;

    type Error = E;

    fn visit_statement(&mut self, statement: &Statement) -> (r: Result<V, E>)
        decreases statement.height(), 4int,
    {
        match statement {
            Statement::Expression(expression) => self.visit_expression(expression),
            Statement::Let { name, expression } => self.visit_let_statement(
                name.as_str(),
                expression.as_ref(),
            ),
        }
    }

    fn visit_statement_expression(&mut self, expression: &Expression) -> (r: Result<V, E>)
        decreases expression.height(), 3int,
    {
        match self.visit_expression(expression) {
            Ok(_) => Ok(<V as Default>::default()),
            Err(e) => Err(e),
        }
    }

    fn visit_let_statement(&mut self, _name: &str, expression: Option<&Expression>) -> (r: Result<
        V,
        E,
    >)
        decreases
                (match expression {
                    Some(e) => e.height(),
                    None => 0,
                }),
            3int,
    {
        if let Some(expr) = expression {
            match self.visit_expression(expr) {
                Ok(_) => {},
                Err(e) => {
                    return Err(e);
                },
            }
        }
        Ok(<V as Default>::default())
    }

    fn visit_expression(&mut self, expression: &Expression) -> (r: Result<V, E>)
        decreases expression.height(), 2int,
    {
        match expression {
            Expression::Binary(operator, left_expression, right_expression) => self.visit_binary(
                operator,
                &**left_expression,
                &**right_expression,
            ),
            Expression::Unary(operator, inner) => self.visit_unary(operator, &**inner),
            Expression::Integer(value) => self.visit_number(*value),
        }
    }

    fn visit_binary(
        &mut self,
        _operator: &BinaryOperator,
        left_expression: &Expression,
        right_expression: &Expression,
    ) -> (r: Result<V, E>)
        decreases vstd::math::max(
            left_expression.height() as int,
            right_expression.height() as int,
        ), 3int,
    {
        match self.visit_expression(left_expression) {
            Ok(_) => {},
            Err(e) => {
                return Err(e);
            },
        }
        match self.visit_expression(right_expression) {
            Ok(_) => {},
            Err(e) => {
                return Err(e);
            },
        }
        Ok(<V as Default>::default())
    }

    fn visit_unary(&mut self, _operator: &UnaryOperator, expression: &Expression) -> (r: Result<
        V,
        E,
    >)
        decreases expression.height(), 3int,
    {
        match self.visit_expression(expression) {
            Ok(_) => {},
            Err(e) => {
                return Err(e);
            },
        }
        Ok(<V as Default>::default())
    }

    fn visit_number(&mut self, _value: i64) -> (r: Result<V, E>)
        decreases 0int, 0int,
    {
        Ok(<V as Default>::default())
    }
}

} // verus!
