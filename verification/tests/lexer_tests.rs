use x86enc::ast_visitor::DefaultAstVisitor;
use x86enc::expression::{BinaryOperator, Expression};
use x86enc::lexer::Lexer;
use x86enc::parser::Parser;
use x86enc::statement::Statement;
use x86enc::token::Token;

#[test]
fn tokenize_let_statement() {
    let mut lexer = Lexer::new(String::from("let x = 1 + 2;"));
    let tokens = lexer.tokenize();
    assert_eq!(
        tokens,
        vec![
            Token::Identifier(String::from("let")),
            Token::Identifier(String::from("x")),
            Token::Equal,
            Token::NumberLiteral(1),
            Token::Plus,
            Token::NumberLiteral(2),
            Token::Semicolon,
        ]
    );
}

#[test]
fn tokenize_string_literal_content() {
    let mut lexer = Lexer::new(String::from("say \"hi there\" ;"));
    let tokens = lexer.tokenize();
    assert_eq!(
        tokens,
        vec![
            Token::Identifier(String::from("say")),
            Token::StringLiteral(String::from("hi there")),
            Token::Semicolon,
        ]
    );
}

#[test]
fn tokenize_number_literal_value() {
    let mut lexer = Lexer::new(String::from("12345"));
    let tokens = lexer.tokenize();
    assert_eq!(tokens, vec![Token::NumberLiteral(12345)]);
}

#[test]
fn tokenize_skips_unknown_characters() {
    let mut lexer = Lexer::new(String::from("1 @ 2"));
    let tokens = lexer.tokenize();
    assert_eq!(tokens, vec![Token::NumberLiteral(1), Token::NumberLiteral(2)]);
}

#[test]
fn tokenize_identifier_with_digits_and_underscores() {
    let mut lexer = Lexer::new(String::from("_mix3d up"));
    let tokens = lexer.tokenize();
    assert_eq!(
        tokens,
        vec![
            Token::Identifier(String::from("_mix3d")),
            Token::Identifier(String::from("up")),
        ]
    );
}

#[test]
fn tokenize_empty_source() {
    let mut lexer = Lexer::new(String::new());
    let tokens = lexer.tokenize();
    assert_eq!(tokens, Vec::<Token>::new());
}

#[test]
fn tokenize_all_single_character_tokens() {
    let mut lexer = Lexer::new(String::from("+-*/=(){},:;"));
    let tokens = lexer.tokenize();
    assert_eq!(
        tokens,
        vec![
            Token::Plus,
            Token::Minus,
            Token::Star,
            Token::Slash,
            Token::Equal,
            Token::LParen,
            Token::RParen,
            Token::LBrace,
            Token::RBrace,
            Token::Comma,
            Token::Colon,
            Token::Semicolon,
        ]
    );
}

#[test]
fn lex_then_parse_with_precedence() {
    let mut lexer = Lexer::new(String::from("1 + 2 * 3"));
    let tokens = lexer.tokenize();
    let mut parser = Parser::new(&tokens);
    let expected = Ok(Statement::Expression(Expression::Binary(
        BinaryOperator::Plus,
        Box::new(Expression::Integer(1)),
        Box::new(Expression::Binary(
            BinaryOperator::Multiply,
            Box::new(Expression::Integer(2)),
            Box::new(Expression::Integer(3)),
        )),
    )));
    assert_eq!(parser.parse(), expected);
}

#[test]
fn parse_is_left_associative() {
    let tokens = [
        Token::NumberLiteral(8),
        Token::Minus,
        Token::NumberLiteral(3),
        Token::Minus,
        Token::NumberLiteral(2),
    ];
    let mut parser = Parser::new(&tokens);
    let expected = Ok(Box::new(Expression::Binary(
        BinaryOperator::Minus,
        Box::new(Expression::Binary(
            BinaryOperator::Minus,
            Box::new(Expression::Integer(8)),
            Box::new(Expression::Integer(3)),
        )),
        Box::new(Expression::Integer(2)),
    )));
    assert_eq!(parser.parse_addition(), expected);
}

#[test]
fn parse_rejects_a_dangling_operator() {
    let tokens = [Token::NumberLiteral(1), Token::Plus];
    let mut parser = Parser::new(&tokens);
    assert_eq!(parser.parse(), Err(()));
}

#[test]
fn default_visitor_walks_an_expression() {
    let visitor = DefaultAstVisitor::<i32, ()>::new();
    let mut expression = Expression::Binary(
        BinaryOperator::Plus,
        Box::new(Expression::Integer(1)),
        Box::new(Expression::Integer(2)),
    );
    assert_eq!(expression.accept(visitor), Ok(0));
}

#[test]
fn default_visitor_walks_a_statement() {
    let visitor = DefaultAstVisitor::<i32, ()>::new();
    let mut statement = Statement::Let {
        name: String::from("x"),
        expression: Some(Expression::Integer(7)),
    };
    assert_eq!(statement.accept(visitor), Ok(0));
}
