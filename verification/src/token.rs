//! The tokens of the small expression language.

use vstd::prelude::*;

verus! {

/// One lexical token.
#[derive(Debug, PartialEq, Eq)]
pub enum Token {
    /// A keyword or identifier.
    Identifier(String),
    NumberLiteral(i64),
    StringLiteral(String),
    /// `+`
    Plus,
    /// `-`
    Minus,
    /// `*`
    Star,
    /// `/`
    Slash,
    /// `=`
    Equal,
    /// `(`
    LParen,
    /// `)`
    RParen,
    /// `{`
    LBrace,
    /// `}`
    RBrace,
    /// `,`
    Comma,
    /// `:`
    Colon,
    /// `;`
    Semicolon,
    /// End of input.
    EOF,
}

/// The mathematical content of a token: text carried as a character
/// sequence.
pub enum TokenModel {
    Identifier(Seq<char>),
    NumberLiteral(i64),
    StringLiteral(Seq<char>),
    Plus,
    Minus,
    Star,
    Slash,
    Equal,
    LParen,
    RParen,
    LBrace,
    RBrace,
    Comma,
    Colon,
    Semicolon,
    EOF,
}

impl View for Token {
    type V = TokenModel;

    open spec fn view(&self) -> TokenModel {
        match self {
            Token::Identifier(s) => TokenModel::Identifier(s@),
            Token::NumberLiteral(n) => TokenModel::NumberLiteral(*n),
            Token::StringLiteral(s) => TokenModel::StringLiteral(s@),
            Token::Plus => TokenModel::Plus,
            Token::Minus => TokenModel::Minus,
            Token::Star => TokenModel::Star,
            Token::Slash => TokenModel::Slash,
            Token::Equal => TokenModel::Equal,
            Token::LParen => TokenModel::LParen,
            Token::RParen => TokenModel::RParen,
            Token::LBrace => TokenModel::LBrace,
            Token::RBrace => TokenModel::RBrace,
            Token::Comma => TokenModel::Comma,
            Token::Colon => TokenModel::Colon,
            Token::Semicolon => TokenModel::Semicolon,
            Token::EOF => TokenModel::EOF,
        }
    }
}

impl Clone for Token {
    /// Clones the token; the copy equals the original.
    fn clone(&self) -> (r: Token)
        ensures
            r == *self,
    {
        match self {
            Token::Identifier(s) => Token::Identifier(s.clone()),
            Token::NumberLiteral(n) => Token::NumberLiteral(*n),
            Token::StringLiteral(s) => Token::StringLiteral(s.clone()),
            Token::Plus => Token::Plus,
            Token::Minus => Token::Minus,
            Token::Star => Token::Star,
            Token::Slash => Token::Slash,
            Token::Equal => Token::Equal,
            Token::LParen => Token::LParen,
            Token::RParen => Token::RParen,
            Token::LBrace => Token::LBrace,
            Token::RBrace => Token::RBrace,
            Token::Comma => Token::Comma,
            Token::Colon => Token::Colon,
            Token::Semicolon => Token::Semicolon,
            Token::EOF => Token::EOF,
        }
    }
}

/// The models of a token sequence, in order.
pub open spec fn token_views(s: Seq<Token>) -> Seq<TokenModel> {
    s.map(|i: int, t: Token| t@)
}

/// Appending a token appends its model.
pub proof fn lemma_token_views_push(s: Seq<Token>, t: Token)
    ensures
        token_views(s.push(t)) == token_views(s).push(t@),
{
    assert(token_views(s.push(t)) =~= token_views(s).push(t@));
}

} // verus!
