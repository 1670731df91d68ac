use x86enc::expression::{BinaryOperator, Expression, UnaryOperator};
use x86enc::parser::Parser;
use x86enc::token::Token;

#[test]
fn parse_primary_number_0() {
    let tokens = [Token::NumberLiteral(0)];

    let mut parser = Parser::new(&tokens);

    let result = Ok(Box::new(Expression::Integer(0)));

    assert_eq!(parser.parse_primary(), result);
}

#[test]
fn parse_primary_number_12345() {
    let tokens = [Token::NumberLiteral(12345)];

    let mut parser = Parser::new(&tokens);

    let result = Ok(Box::new(Expression::Integer(12345)));

    assert_eq!(parser.parse_primary(), result);
}

#[test]
fn parse_unary_negative() {
    let tokens = [Token::Minus, Token::NumberLiteral(1)];

    let mut parser = Parser::new(&tokens);

    let result = Ok(Box::new(Expression::Unary(
        UnaryOperator::Minus,
        Box::new(Expression::Integer(1)),
    )));

    assert_eq!(parser.parse_unary(), result);
}

#[test]
fn parse_unary_positive() {
    let tokens = [Token::Plus, Token::NumberLiteral(999)];

    let mut parser = Parser::new(&tokens);

    let result = Ok(Box::new(Expression::Unary(
        UnaryOperator::Plus,
        Box::new(Expression::Integer(999)),
    )));

    assert_eq!(parser.parse_unary(), result);
}

#[test]
fn parse_binary_number_plus_number() {
    let tokens = [
        Token::NumberLiteral(1),
        Token::Plus,
        Token::NumberLiteral(2),
    ];

    let mut parser = Parser::new(&tokens);

    let result = Ok(Box::new(Expression::Binary(
        BinaryOperator::Plus,
        Box::new(Expression::Integer(1)),
        Box::new(Expression::Integer(2)),
    )));

    assert_eq!(parser.parse_addition(), result);
}

#[test]
fn parse_binary_number_minus_number() {
    let tokens = [
        Token::NumberLiteral(5),
        Token::Minus,
        Token::NumberLiteral(3),
    ];

    let mut parser = Parser::new(&tokens);

    let result = Ok(Box::new(Expression::Binary(
        BinaryOperator::Minus,
        Box::new(Expression::Integer(5)),
        Box::new(Expression::Integer(3)),
    )));

    assert_eq!(parser.parse_addition(), result);
}

#[test]
fn parse_binary_number_multiply_number() {
    let tokens = [
        Token::NumberLiteral(9),
        Token::Star,
        Token::NumberLiteral(6),
    ];

    let mut parser = Parser::new(&tokens);

    let result = Ok(Box::new(Expression::Binary(
        BinaryOperator::Multiply,
        Box::new(Expression::Integer(9)),
        Box::new(Expression::Integer(6)),
    )));

    assert_eq!(parser.parse_addition(), result);
}

#[test]
fn parse_binary_number_divide_number() {
    let tokens = [
        Token::NumberLiteral(4),
        Token::Slash,
        Token::NumberLiteral(2),
    ];

    let mut parser = Parser::new(&tokens);

    let result = Ok(Box::new(Expression::Binary(
        BinaryOperator::Divide,
        Box::new(Expression::Integer(4)),
        Box::new(Expression::Integer(2)),
    )));

    assert_eq!(parser.parse_addition(), result);
}
