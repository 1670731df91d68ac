//! The recursive-descent parser of the small expression language.
//!
//! Grammar, lowest precedence first: an addition is a chain of
//! multiplications joined by `+`/`-`; a multiplication is a chain of unaries
//! joined by `*`/`/`; a unary is a signed unary or a primary; a primary is a
//! number literal. The `spec_parse_*` functions are the parser's
//! mathematical mirror; each yields the parsed node and the position after
//! it, or `None` where the input has no such node.

use vstd::prelude::*;

use crate::expression::{BinaryOperator, Expression, UnaryOperator};
use crate::statement::Statement;
use crate::token::Token;

verus! {

/// A named program entity; a placeholder with no fields yet.
#[derive(Debug)]
pub struct Symbol {}

/// The additive operator a token stands for, if any.
pub open spec fn spec_add_op(t: Token) -> Option<BinaryOperator> {
    match t {
        Token::Plus => Some(BinaryOperator::Plus),
        Token::Minus => Some(BinaryOperator::Minus),
        _ => None,
    }
}

/// The multiplicative operator a token stands for, if any.
pub open spec fn spec_mul_op(t: Token) -> Option<BinaryOperator> {
    match t {
        Token::Star => Some(BinaryOperator::Multiply),
        Token::Slash => Some(BinaryOperator::Divide),
        _ => None,
    }
}

/// A primary expression at `pos`: a number literal.
pub open spec fn spec_parse_primary(toks: Seq<Token>, pos: nat) -> Option<(Expression, nat)> {
    if pos < toks.len() {
        match toks[pos as int] {
            Token::NumberLiteral(n) => Some((Expression::Integer(n), (pos + 1) as nat)),
            _ => None,
        }
    } else {
        None
    }
}

/// A unary expression at `pos`: any run of `-`/`+` signs, then a primary.
pub open spec fn spec_parse_unary(toks: Seq<Token>, pos: nat) -> Option<(Expression, nat)>
    decreases toks.len() - pos,
{
    if pos < toks.len() && (toks[pos as int] matches Token::Minus) {
        match spec_parse_unary(toks, (pos + 1) as nat) {
            None => None,
            Some((e, p)) => Some((Expression::Unary(UnaryOperator::Minus, Box::new(e)), p)),
        }
    } else if pos < toks.len() && (toks[pos as int] matches Token::Plus) {
        match spec_parse_unary(toks, (pos + 1) as nat) {
            None => None,
            Some((e, p)) => Some((Expression::Unary(UnaryOperator::Plus, Box::new(e)), p)),
        }
    } else {
        spec_parse_primary(toks, pos)
    }
}

/// A unary parse moves the position forward and stays within the input.
pub proof fn lemma_parse_unary_progress(toks: Seq<Token>, pos: nat)
    requires
        pos <= toks.len(),
    ensures
        spec_parse_unary(toks, pos) matches Some((e, p)) ==> pos < p <= toks.len(),
    decreases toks.len() - pos,
{
    if pos < toks.len() && (toks[pos as int] matches Token::Minus || toks[pos as int]
        matches Token::Plus) {
        lemma_parse_unary_progress(toks, (pos + 1) as nat);
    }
}

/// Folds further `*`/`/` unaries onto `acc`, left-associatively, until the
/// next token is no multiplicative operator.
pub open spec fn spec_parse_mul_tail(toks: Seq<Token>, pos: nat, acc: Expression) -> Option<
    (Expression, nat),
>
    decreases toks.len() - pos,
{
    if pos < toks.len() && spec_mul_op(toks[pos as int]) is Some {
        let op = spec_mul_op(toks[pos as int]).unwrap();
        proof {
            lemma_parse_unary_progress(toks, (pos + 1) as nat);
        }
        match spec_parse_unary(toks, (pos + 1) as nat) {
            None => None,
            Some((right, p2)) => spec_parse_mul_tail(
                toks,
                p2,
                Expression::Binary(op, Box::new(acc), Box::new(right)),
            ),
        }
    } else {
        Some((acc, pos))
    }
}

/// A multiplicative expression at `pos`: a unary, then any `*`/`/` tail.
pub open spec fn spec_parse_multiplication(toks: Seq<Token>, pos: nat) -> Option<
    (Expression, nat),
> {
    match spec_parse_unary(toks, pos) {
        None => None,
        Some((e, p)) => spec_parse_mul_tail(toks, p, e),
    }
}

/// A multiplicative tail never moves the position backwards.
pub proof fn lemma_parse_mul_tail_progress(toks: Seq<Token>, pos: nat, acc: Expression)
    requires
        pos <= toks.len(),
    ensures
        spec_parse_mul_tail(toks, pos, acc) matches Some((e, p)) ==> pos <= p <= toks.len(),
    decreases toks.len() - pos,
{
    if pos < toks.len() && spec_mul_op(toks[pos as int]) is Some {
        let op = spec_mul_op(toks[pos as int]).unwrap();
        lemma_parse_unary_progress(toks, (pos + 1) as nat);
        match spec_parse_unary(toks, (pos + 1) as nat) {
            None => {},
            Some((right, p2)) => {
                lemma_parse_mul_tail_progress(
                    toks,
                    p2,
                    Expression::Binary(op, Box::new(acc), Box::new(right)),
                );
            },
        }
    }
}

/// A multiplicative parse moves the position forward and stays within the
/// input.
pub proof fn lemma_parse_multiplication_progress(toks: Seq<Token>, pos: nat)
    requires
        pos <= toks.len(),
    ensures
        spec_parse_multiplication(toks, pos) matches Some((e, p)) ==> pos < p <= toks.len(),
{
    lemma_parse_unary_progress(toks, pos);
    match spec_parse_unary(toks, pos) {
        None => {},
        Some((e, p)) => {
            lemma_parse_mul_tail_progress(toks, p, e);
        },
    }
}

/// Folds further `+`/`-` multiplications onto `acc`, left-associatively,
/// until the next token is no additive operator.
pub open spec fn spec_parse_add_tail(toks: Seq<Token>, pos: nat, acc: Expression) -> Option<
    (Expression, nat),
>
    decreases toks.len() - pos,
{
    if pos < toks.len() && spec_add_op(toks[pos as int]) is Some {
        let op = spec_add_op(toks[pos as int]).unwrap();
        proof {
            lemma_parse_multiplication_progress(toks, (pos + 1) as nat);
        }
        match spec_parse_multiplication(toks, (pos + 1) as nat) {
            None => None,
            Some((right, p2)) => spec_parse_add_tail(
                toks,
                p2,
                Expression::Binary(op, Box::new(acc), Box::new(right)),
            ),
        }
    } else {
        Some((acc, pos))
    }
}

/// An additive expression at `pos`: a multiplication, then any `+`/`-`
/// tail.
pub open spec fn spec_parse_addition(toks: Seq<Token>, pos: nat) -> Option<(Expression, nat)> {
    match spec_parse_multiplication(toks, pos) {
        None => None,
        Some((e, p)) => spec_parse_add_tail(toks, p, e),
    }
}

/// An expression is an additive expression.
pub open spec fn spec_parse_expression(toks: Seq<Token>, pos: nat) -> Option<(Expression, nat)> {
    spec_parse_addition(toks, pos)
}

/// A statement is a bare expression.
pub open spec fn spec_parse_statement(toks: Seq<Token>, pos: nat) -> Option<(Statement, nat)> {
    match spec_parse_expression(toks, pos) {
        None => None,
        Some((e, p)) => Some((Statement::Expression(e), p)),
    }
}

/// The parser's state: the tokens and a cursor.
pub struct Parser<'a> {
    tokens: &'a [Token],
    offset: usize,
}

impl<'a> Parser<'a> {
    /// The token sequence under the cursor.
    pub closed spec fn toks(&self) -> Seq<Token> {
        self.tokens@
    }

    /// The cursor position.
    pub closed spec fn pos(&self) -> nat {
        self.offset as nat
    }

    /// Creates a parser over the given tokens, with the cursor at the start.
    pub fn new(tokens: &'a [Token]) -> (r: Self)
        ensures
            r.toks() == tokens@,
            r.pos() == 0,
    {
        Self { tokens, offset: 0 }
    }

    /// Parses one statement from the start of the input. Trailing tokens are
    /// left unconsumed.
    pub fn parse(&mut self) -> (r: Result<Statement, ()>)
        ensures
            final(self).toks() == old(self).toks(),
            final(self).pos() <= final(self).toks().len(),
            match r {
                Ok(s) => spec_parse_statement(old(self).toks(), 0) == Some(
                    (s, final(self).pos()),
                ),
                Err(_) => spec_parse_statement(old(self).toks(), 0) is None,
            },
    {
        self.offset = 0;
        self.parse_statement()
    }

    /// Parses one statement at the cursor.
    pub fn parse_statement(&mut self) -> (r: Result<Statement, ()>)
        requires
            old(self).pos() <= old(self).toks().len(),
        ensures
            final(self).toks() == old(self).toks(),
            old(self).pos() <= final(self).pos() <= final(self).toks().len(),
            match r {
                Ok(s) => spec_parse_statement(old(self).toks(), old(self).pos()) == Some(
                    (s, final(self).pos()),
                ),
                Err(_) => spec_parse_statement(old(self).toks(), old(self).pos()) is None,
            },
    {
        let expression = match self.parse_expression() {
            Ok(e) => e,
            Err(e) => {
                return Err(e);
            },
        };
        Ok(Statement::Expression(*expression))
    }

    /// Parses one expression at the cursor.
    pub fn parse_expression(&mut self) -> (r: Result<Box<Expression>, ()>)
        requires
            old(self).pos() <= old(self).toks().len(),
        ensures
            final(self).toks() == old(self).toks(),
            old(self).pos() <= final(self).pos() <= final(self).toks().len(),
            match r {
                Ok(e) => spec_parse_expression(old(self).toks(), old(self).pos()) == Some(
                    (*e, final(self).pos()),
                ),
                Err(_) => spec_parse_expression(old(self).toks(), old(self).pos()) is None,
            },
    {
        self.parse_addition()
    }

    /// Parses an additive expression at the cursor: a multiplication, then
    /// any `+`/`-` tail, folded left-associatively.
    pub fn parse_addition(&mut self) -> (r: Result<Box<Expression>, ()>)
        requires
            old(self).pos() <= old(self).toks().len(),
        ensures
            final(self).toks() == old(self).toks(),
            old(self).pos() <= final(self).pos() <= final(self).toks().len(),
            match r {
                Ok(e) => spec_parse_addition(old(self).toks(), old(self).pos()) == Some(
                    (*e, final(self).pos()),
                ),
                Err(_) => spec_parse_addition(old(self).toks(), old(self).pos()) is None,
            },
    {
        let ghost toks = self.toks();
        let ghost pos0 = self.pos();
        let mut expression = match self.parse_multiplication() {
            Ok(e) => e,
            Err(e) => {
                return Err(e);
            },
        };
        loop
            invariant
                toks == old(self).toks(),
                pos0 == old(self).pos(),
                self.toks() == toks,
                pos0 <= self.pos() <= toks.len(),
                spec_parse_addition(toks, pos0) == spec_parse_add_tail(
                    toks,
                    self.pos(),
                    *expression,
                ),
            ensures
                self.toks() == toks,
                pos0 <= self.pos() <= toks.len(),
                spec_parse_addition(toks, pos0) == Some((*expression, self.pos())),
            decreases toks.len() - self.pos(),
        {
            let binary_operator = match self.peek() {
                Some(t) => match t {
                    Token::Plus => BinaryOperator::Plus,
                    Token::Minus => BinaryOperator::Minus,
                    _ => {
                        break ;
                    },
                },
                None => {
                    break ;
                },
            };
            self.next();
            let right_expression = match self.parse_multiplication() {
                Ok(e) => e,
                Err(e) => {
                    return Err(e);
                },
            };
            expression = Box::new(Expression::Binary(binary_operator, expression, right_expression));
        }
        Ok(expression)
    }

    /// Parses a multiplicative expression at the cursor: a unary, then any
    /// `*`/`/` tail, folded left-associatively.
    pub fn parse_multiplication(&mut self) -> (r: Result<Box<Expression>, ()>)
        requires
            old(self).pos() <= old(self).toks().len(),
        ensures
            final(self).toks() == old(self).toks(),
            old(self).pos() <= final(self).pos() <= final(self).toks().len(),
            match r {
                Ok(e) => spec_parse_multiplication(old(self).toks(), old(self).pos()) == Some(
                    (*e, final(self).pos()),
                ),
                Err(_) => spec_parse_multiplication(old(self).toks(), old(self).pos()) is None,
            },
    {
        let ghost toks = self.toks();
        let ghost pos0 = self.pos();
        let mut expression = match self.parse_unary() {
            Ok(e) => e,
            Err(e) => {
                return Err(e);
            },
        };
        loop
            invariant
                toks == old(self).toks(),
                pos0 == old(self).pos(),
                self.toks() == toks,
                pos0 <= self.pos() <= toks.len(),
                spec_parse_multiplication(toks, pos0) == spec_parse_mul_tail(
                    toks,
                    self.pos(),
                    *expression,
                ),
            ensures
                self.toks() == toks,
                pos0 <= self.pos() <= toks.len(),
                spec_parse_multiplication(toks, pos0) == Some((*expression, self.pos())),
            decreases toks.len() - self.pos(),
        {
            let binary_operator = match self.peek() {
                Some(t) => match t {
                    Token::Star => BinaryOperator::Multiply,
                    Token::Slash => BinaryOperator::Divide,
                    _ => {
                        break ;
                    },
                },
                None => {
                    break ;
                },
            };
            self.next();
            let right_expression = match self.parse_unary() {
                Ok(e) => e,
                Err(e) => {
                    return Err(e);
                },
            };
            expression = Box::new(Expression::Binary(binary_operator, expression, right_expression));
        }
        Ok(expression)
    }

    /// Parses a unary expression at the cursor: a `-`/`+` sign applied to a
    /// unary, or a primary.
    pub fn parse_unary(&mut self) -> (r: Result<Box<Expression>, ()>)
        requires
            old(self).pos() <= old(self).toks().len(),
        ensures
            final(self).toks() == old(self).toks(),
            old(self).pos() <= final(self).pos() <= final(self).toks().len(),
            match r {
                Ok(e) => spec_parse_unary(old(self).toks(), old(self).pos()) == Some(
                    (*e, final(self).pos()),
                ),
                Err(_) => spec_parse_unary(old(self).toks(), old(self).pos()) is None,
            },
        decreases old(self).toks().len() - old(self).pos(),
    {
        let unary_operator_opt = match self.peek() {
            Some(t) => match t {
                Token::Minus => Some(UnaryOperator::Minus),
                Token::Plus => Some(UnaryOperator::Plus),
                _ => None,
            },
            None => None,
        };
        if let Some(unary_operator) = unary_operator_opt {
            self.next();
            let expression = match self.parse_unary() {
                Ok(e) => e,
                Err(e) => {
                    return Err(e);
                },
            };
            Ok(Box::new(Expression::Unary(unary_operator, expression)))
        } else {
            self.parse_primary()
        }
    }

    /// Parses a primary expression at the cursor: a number literal. Any
    /// other token, or the end of the input, is a parse error.
    pub fn parse_primary(&mut self) -> (r: Result<Box<Expression>, ()>)
        requires
            old(self).pos() <= old(self).toks().len(),
        ensures
            final(self).toks() == old(self).toks(),
            old(self).pos() <= final(self).pos() <= final(self).toks().len(),
            match r {
                Ok(e) => spec_parse_primary(old(self).toks(), old(self).pos()) == Some(
                    (*e, final(self).pos()),
                ),
                Err(_) => spec_parse_primary(old(self).toks(), old(self).pos()) is None
                    && final(self).pos() == old(self).pos(),
            },
    {
        if let Some(token) = self.peek() {
            let expression_opt = match token {
                Token::NumberLiteral(n) => Some(Expression::Integer(*n)),
                _ => None,
            };
            match expression_opt {
                Some(expression) => {
                    self.next();
                    return Ok(Box::new(expression));
                },
                None => {
                    return Err(());
                },
            }
        }
        Err(())
    }

    /// Returns the token under the cursor without advancing.
    fn peek(&self) -> (r: Option<&Token>)
        ensures
            match r {
                Some(t) => self.pos() < self.toks().len() && *t == self.toks()[self.pos() as int],
                None => self.pos() >= self.toks().len(),
            },
    {
        if self.offset < self.tokens.len() {
            Some(&self.tokens[self.offset])
        } else {
            None
        }
    }

    /// Advances the cursor one token.
    fn next(&mut self)
        requires
            old(self).pos() < old(self).toks().len(),
        ensures
            final(self).toks() == old(self).toks(),
            final(self).pos() == old(self).pos() + 1,
    {
        proof {
            // the cursor is within the slice, whose length fits in usize
            assert(self.tokens@.len() == self.tokens.len());
        }
        self.offset += 1;
    }
}

} // verus!
