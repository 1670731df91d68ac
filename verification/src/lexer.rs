//! The lexer: turns source text into a token sequence.
//!
//! The lexer skips whitespace and unknown characters, and recognises
//! identifiers, string literals, decimal number literals and
//! single-character tokens. `spec_lex` is its mathematical mirror; it yields
//! `None` exactly on the inputs the lexer cannot handle (an unterminated
//! string literal, or a number literal too large for its token).

use vstd::prelude::*;

use crate::token::{lemma_token_views_push, token_views, Token, TokenModel};

verus! {

/// Whether a character counts as whitespace.
pub uninterp spec fn is_whitespace_char(c: char) -> bool;

/// Whether a character counts as alphabetic.
pub uninterp spec fn is_alphabetic_char(c: char) -> bool;

/// Relies on char::is_whitespace: whether the character has the Unicode
/// White_Space property. The result depends on the character alone.
#[verifier::external_body]
fn char_is_whitespace(c: char) -> (b: bool)
    ensures
        b == is_whitespace_char(c),
{
    c.is_whitespace()
}

/// Relies on char::is_alphabetic: whether the character has the Unicode
/// Alphabetic property. The result depends on the character alone.
#[verifier::external_body]
fn char_is_alphabetic(c: char) -> (b: bool)
    ensures
        b == is_alphabetic_char(c),
{
    c.is_alphabetic()
}

/// Relies on String::push: appends one character to the string.
#[verifier::external_body]
fn push_char(s: &mut String, c: char)
    ensures
        final(s)@ == old(s)@.push(c),
{
    s.push(c);
}

/// Relies on str::chars: iterating a string's characters in order yields
/// exactly its character sequence.
#[verifier::external_body]
fn chars_of(source: &str) -> (r: Vec<char>)
    ensures
        r@ == source@,
{
    source.chars().collect()
}

/// Whether a character is a decimal digit.
pub open spec fn is_digit_char(c: char) -> bool {
    48 <= c as u32 && c as u32 <= 57
}

/// The numeric value of a decimal digit character.
pub open spec fn digit_of(c: char) -> nat
    recommends
        is_digit_char(c),
{
    (c as u32 - 48) as nat
}

/// Whether a character may start an identifier.
pub open spec fn is_ident_start(c: char) -> bool {
    is_alphabetic_char(c) || c == '_'
}

/// Whether a character may continue an identifier.
pub open spec fn is_ident_tail(c: char) -> bool {
    is_ident_start(c) || is_digit_char(c)
}

/// Decides whether a character is a decimal digit.
fn char_is_digit(c: char) -> (b: bool)
    ensures
        b == is_digit_char(c),
{
    let u = c as u32;
    48 <= u && u <= 57
}

/// Decides whether a character may start an identifier.
fn char_is_ident_start(c: char) -> (b: bool)
    ensures
        b == is_ident_start(c),
{
    char_is_alphabetic(c) || c == '_'
}

/// Decides whether a character may continue an identifier.
fn char_is_ident_tail(c: char) -> (b: bool)
    ensures
        b == is_ident_tail(c),
{
    char_is_ident_start(c) || char_is_digit(c)
}

/// The end of the identifier-tail run that starts at `pos`: the first
/// position at or after `pos` holding no identifier character.
pub open spec fn ident_end(chars: Seq<char>, pos: nat) -> nat
    decreases chars.len() - pos,
{
    if pos < chars.len() && is_ident_tail(chars[pos as int]) {
        ident_end(chars, (pos + 1) as nat)
    } else {
        pos
    }
}

/// Bounds and content of an identifier-tail run.
pub proof fn lemma_ident_end_bounds(chars: Seq<char>, pos: nat)
    requires
        pos <= chars.len(),
    ensures
        pos <= ident_end(chars, pos) <= chars.len(),
        forall|k: int| pos <= k < ident_end(chars, pos) ==> is_ident_tail(#[trigger] chars[k]),
        ident_end(chars, pos) < chars.len() ==> !is_ident_tail(
            chars[ident_end(chars, pos) as int],
        ),
    decreases chars.len() - pos,
{
    if pos < chars.len() && is_ident_tail(chars[pos as int]) {
        lemma_ident_end_bounds(chars, (pos + 1) as nat);
    }
}

/// The end of the digit run that starts at `pos`.
pub open spec fn digit_end(chars: Seq<char>, pos: nat) -> nat
    decreases chars.len() - pos,
{
    if pos < chars.len() && is_digit_char(chars[pos as int]) {
        digit_end(chars, (pos + 1) as nat)
    } else {
        pos
    }
}

/// Bounds and content of a digit run.
pub proof fn lemma_digit_end_bounds(chars: Seq<char>, pos: nat)
    requires
        pos <= chars.len(),
    ensures
        pos <= digit_end(chars, pos) <= chars.len(),
        forall|k: int| pos <= k < digit_end(chars, pos) ==> is_digit_char(#[trigger] chars[k]),
        digit_end(chars, pos) < chars.len() ==> !is_digit_char(
            chars[digit_end(chars, pos) as int],
        ),
    decreases chars.len() - pos,
{
    if pos < chars.len() && is_digit_char(chars[pos as int]) {
        lemma_digit_end_bounds(chars, (pos + 1) as nat);
    }
}

/// The position of the next `"` at or after `pos`, if any.
pub open spec fn string_close(chars: Seq<char>, pos: nat) -> Option<nat>
    decreases chars.len() - pos,
{
    if pos >= chars.len() {
        None
    } else if chars[pos as int] == '"' {
        Some(pos)
    } else {
        string_close(chars, (pos + 1) as nat)
    }
}

/// Bounds and content around the next closing quote.
pub proof fn lemma_string_close_bounds(chars: Seq<char>, pos: nat)
    requires
        pos <= chars.len(),
    ensures
        match string_close(chars, pos) {
            Some(cl) => pos <= cl < chars.len() && chars[cl as int] == '"' && forall|k: int|
                pos <= k < cl ==> #[trigger] chars[k] != '"',
            None => forall|k: int| pos <= k < chars.len() ==> #[trigger] chars[k] != '"',
        },
    decreases chars.len() - pos,
{
    if pos < chars.len() && chars[pos as int] != '"' {
        lemma_string_close_bounds(chars, (pos + 1) as nat);
    }
}

/// The value of a run of decimal digits, most significant first.
pub open spec fn digits_value(digits: Seq<char>) -> nat
    decreases digits.len(),
{
    if digits.len() == 0 {
        0
    } else {
        digits_value(digits.drop_last()) * 10 + digit_of(digits.last())
    }
}

/// A prefix of a digit run never exceeds the whole run's value.
pub proof fn lemma_digits_value_prefix(digits: Seq<char>, k: int)
    requires
        0 <= k <= digits.len(),
    ensures
        digits_value(digits.subrange(0, k)) <= digits_value(digits),
    decreases digits.len() - k,
{
    if k == digits.len() {
        assert(digits.subrange(0, k) =~= digits);
    } else {
        assert(digits.subrange(0, k + 1).drop_last() =~= digits.subrange(0, k));
        assert(digits_value(digits.subrange(0, k)) <= digits_value(digits.subrange(0, k + 1)));
        lemma_digits_value_prefix(digits, k + 1);
    }
}

/// The single-character token a character stands for, if any.
pub open spec fn single_char_token(c: char) -> Option<TokenModel> {
    if c == '+' {
        Some(TokenModel::Plus)
    } else if c == '-' {
        Some(TokenModel::Minus)
    } else if c == '*' {
        Some(TokenModel::Star)
    } else if c == '/' {
        Some(TokenModel::Slash)
    } else if c == '=' {
        Some(TokenModel::Equal)
    } else if c == '(' {
        Some(TokenModel::LParen)
    } else if c == ')' {
        Some(TokenModel::RParen)
    } else if c == '{' {
        Some(TokenModel::LBrace)
    } else if c == '}' {
        Some(TokenModel::RBrace)
    } else if c == ',' {
        Some(TokenModel::Comma)
    } else if c == ':' {
        Some(TokenModel::Colon)
    } else if c == ';' {
        Some(TokenModel::Semicolon)
    } else {
        None
    }
}

/// The token models of the source text from `pos` on, or `None` where the
/// lexer cannot proceed: an unterminated string literal, or a number
/// literal whose value does not fit the token.
pub open spec fn spec_lex(chars: Seq<char>, pos: nat) -> Option<Seq<TokenModel>>
    decreases chars.len() - pos,
{
    if pos >= chars.len() {
        Some(Seq::empty())
    } else {
        let c = chars[pos as int];
        if is_whitespace_char(c) {
            spec_lex(chars, (pos + 1) as nat)
        } else if is_ident_start(c) {
            proof {
                lemma_ident_end_bounds(chars, (pos + 1) as nat);
            }
            let end = ident_end(chars, (pos + 1) as nat);
            match spec_lex(chars, end) {
                None => None,
                Some(rest) => Some(
                    seq![TokenModel::Identifier(chars.subrange(pos as int, end as int))] + rest,
                ),
            }
        } else if c == '"' {
            proof {
                lemma_string_close_bounds(chars, (pos + 1) as nat);
            }
            match string_close(chars, (pos + 1) as nat) {
                None => None,
                Some(cl) => match spec_lex(chars, (cl + 1) as nat) {
                    None => None,
                    Some(rest) => Some(
                        seq![TokenModel::StringLiteral(chars.subrange(pos + 1 as int, cl as int))]
                            + rest,
                    ),
                },
            }
        } else if is_digit_char(c) {
            proof {
                lemma_digit_end_bounds(chars, pos);
            }
            let end = digit_end(chars, pos);
            let value = digits_value(chars.subrange(pos as int, end as int));
            if value > i64::MAX {
                None
            } else {
                match spec_lex(chars, end) {
                    None => None,
                    Some(rest) => Some(seq![TokenModel::NumberLiteral(value as i64)] + rest),
                }
            }
        } else {
            match single_char_token(c) {
                Some(t) => match spec_lex(chars, (pos + 1) as nat) {
                    None => None,
                    Some(rest) => Some(seq![t] + rest),
                },
                None => spec_lex(chars, (pos + 1) as nat),
            }
        }
    }
}

/// The lexer's state: the source as characters, a cursor, and the tokens
/// recognised so far.
pub struct Lexer {
    source_chars: Vec<char>,
    source_offset: usize,
    tokens: Vec<Token>,
}

impl Lexer {
    /// The source text as a character sequence.
    pub closed spec fn chars(&self) -> Seq<char> {
        self.source_chars@
    }

    /// The cursor position within the source.
    pub closed spec fn pos(&self) -> nat {
        self.source_offset as nat
    }

    /// The tokens recognised so far.
    pub closed spec fn toks(&self) -> Seq<Token> {
        self.tokens@
    }

    /// The character under the cursor, if any.
    pub open spec fn peek_spec(&self) -> Option<char> {
        if self.pos() < self.chars().len() {
            Some(self.chars()[self.pos() as int])
        } else {
            None
        }
    }

    /// Creates a lexer over the given source text, with the cursor at the
    /// start and no tokens.
    pub fn new(source: String) -> (r: Lexer)
        ensures
            r.chars() == source@,
            r.pos() == 0,
            r.toks() == Seq::<Token>::empty(),
    {
        Lexer { source_chars: chars_of(source.as_str()), source_offset: 0, tokens: Vec::new() }
    }

    /// Appends one recognised token.
    fn add_token(&mut self, token: Token)
        ensures
            final(self).chars() == old(self).chars(),
            final(self).pos() == old(self).pos(),
            final(self).toks() == old(self).toks().push(token),
    {
        self.tokens.push(token);
    }

    /// Advances the cursor one character.
    fn next(&mut self)
        requires
            old(self).pos() < old(self).chars().len(),
        ensures
            final(self).chars() == old(self).chars(),
            final(self).toks() == old(self).toks(),
            final(self).pos() == old(self).pos() + 1,
    {
        proof {
            // the cursor is within the vector, whose length fits in usize
            assert(self.source_chars@.len() == self.source_chars.len());
        }
        self.source_offset += 1;
    }

    /// Returns the character under the cursor without advancing.
    fn peek(&self) -> (r: Option<char>)
        ensures
            r == self.peek_spec(),
    {
        if self.source_offset < self.source_chars.len() {
            Some(self.source_chars[self.source_offset])
        } else {
            None
        }
    }

    /// Returns the character under the cursor and advances past it.
    fn peek_and_next(&mut self) -> (r: Option<char>)
        requires
            old(self).pos() < old(self).chars().len(),
        ensures
            final(self).chars() == old(self).chars(),
            final(self).toks() == old(self).toks(),
            final(self).pos() == old(self).pos() + 1,
            r == old(self).peek_spec(),
    {
        let result = self.peek();
        self.next();
        result
    }

    /// Returns and consumes the character under the cursor when `f` accepts
    /// it; leaves the cursor alone otherwise.
    fn take_if<F: Fn(char) -> bool>(&mut self, f: F) -> (r: Option<char>)
        requires
            forall|c: char| #[trigger] call_requires(f, (c,)),
        ensures
            final(self).chars() == old(self).chars(),
            final(self).toks() == old(self).toks(),
            match r {
                Some(c) => old(self).peek_spec() == Some(c) && call_ensures(f, (c,), true)
                    && final(self).pos() == old(self).pos() + 1,
                None => final(self).pos() == old(self).pos() && (old(self).peek_spec() matches Some(
                    c,
                ) ==> call_ensures(f, (c,), false)),
            },
    {
        let current = self.peek();
        if let Some(current_char) = current {
            if f(current_char) {
                self.next();
                return Some(current_char);
            }
        }
        None
    }

    /// Whether the cursor sits on a character that may continue an
    /// identifier.
    fn peek_is_ident_tail(&self) -> (b: bool)
        ensures
            b == (self.peek_spec() matches Some(c) && is_ident_tail(c)),
    {
        match self.peek() {
            Some(c) => char_is_ident_tail(c),
            None => false,
        }
    }

    /// Recognises an identifier at the cursor: the start character, then the
    /// longest run of identifier characters.
    fn tokenize_identifier(&mut self) -> (r: Token)
        requires
            old(self).pos() < old(self).chars().len(),
            is_ident_start(old(self).chars()[old(self).pos() as int]),
        ensures
            final(self).chars() == old(self).chars(),
            final(self).toks() == old(self).toks(),
            final(self).pos() == ident_end(old(self).chars(), (old(self).pos() + 1) as nat),
            r@ == TokenModel::Identifier(
                old(self).chars().subrange(old(self).pos() as int, final(self).pos() as int),
            ),
    {
        let ghost chars = self.chars();
        let ghost start = self.pos();
        proof {
            lemma_ident_end_bounds(chars, (start + 1) as nat);
        }
        let mut identifier_builder = String::new();
        let first_char = match self.peek() {
            Some(c) => c,
            None => vstd::pervasive::unreached(),
        };
        push_char(&mut identifier_builder, first_char);
        self.next();
        while self.peek_is_ident_tail()
            invariant
                self.chars() == chars,
                self.toks() == old(self).toks(),
                start < self.pos() <= chars.len(),
                identifier_builder@ == chars.subrange(start as int, self.pos() as int),
                ident_end(chars, (start + 1) as nat) == ident_end(chars, self.pos() as nat),
            decreases chars.len() - self.pos(),
        {
            let current_char = match self.peek() {
                Some(c) => c,
                None => vstd::pervasive::unreached(),
            };
            push_char(&mut identifier_builder, current_char);
            self.next();
            proof {
                assert(identifier_builder@ =~= chars.subrange(start as int, self.pos() as int));
            }
        }
        proof {
            assert(ident_end(chars, self.pos() as nat) == self.pos());
        }
        Token::Identifier(identifier_builder)
    }

    /// Recognises a string literal at the cursor: an opening quote, the
    /// characters up to the next quote, and that closing quote.
    fn tokenize_string_literal(&mut self) -> (r: Token)
        requires
            old(self).pos() < old(self).chars().len(),
            old(self).chars()[old(self).pos() as int] == '"',
            string_close(old(self).chars(), (old(self).pos() + 1) as nat) is Some,
        ensures
            final(self).chars() == old(self).chars(),
            final(self).toks() == old(self).toks(),
            final(self).pos() == string_close(
                old(self).chars(),
                (old(self).pos() + 1) as nat,
            ).unwrap() + 1,
            r@ == TokenModel::StringLiteral(
                old(self).chars().subrange(
                    old(self).pos() + 1 as int,
                    string_close(old(self).chars(), (old(self).pos() + 1) as nat).unwrap() as int,
                ),
            ),
    {
        let ghost chars = self.chars();
        let ghost start = self.pos();
        let ghost close = string_close(chars, (start + 1) as nat).unwrap();
        proof {
            lemma_string_close_bounds(chars, (start + 1) as nat);
        }
        let mut string_builder = String::new();
        let opening = self.take_if(|ch: char| -> (b: bool)
            ensures
                b == (ch == '"'),
            { ch == '"' });
        match opening {
            Some(_) => (),
            None => vstd::pervasive::unreached(),
        }
        loop
            invariant
                self.chars() == chars,
                self.toks() == old(self).toks(),
                start + 1 <= self.pos() <= close,
                close < chars.len(),
                chars[close as int] == '"',
                forall|k: int| start + 1 <= k < close ==> #[trigger] chars[k] != '"',
                string_close(chars, (start + 1) as nat) == Some(close),
                string_builder@ == chars.subrange(start + 1 as int, self.pos() as int),
            ensures
                self.chars() == chars,
                self.toks() == old(self).toks(),
                self.pos() == close,
                string_builder@ == chars.subrange(start + 1 as int, close as int),
            decreases close - self.pos(),
        {
            let taken = self.take_if(|ch: char| -> (b: bool)
                ensures
                    b == (ch != '"'),
                { ch != '"' });
            match taken {
                Some(current_char) => {
                    push_char(&mut string_builder, current_char);
                    proof {
                        assert(string_builder@ =~= chars.subrange(
                            start + 1 as int,
                            self.pos() as int,
                        ));
                    }
                },
                None => {
                    break ;
                },
            }
        }
        let closing = self.take_if(|ch: char| -> (b: bool)
            ensures
                b == (ch == '"'),
            { ch == '"' });
        match closing {
            Some(_) => (),
            None => vstd::pervasive::unreached(),
        }
        Token::StringLiteral(string_builder)
    }

    /// Whether the cursor sits on a decimal digit.
    fn peek_is_digit(&self) -> (b: bool)
        ensures
            b == (self.peek_spec() matches Some(c) && is_digit_char(c)),
    {
        match self.peek() {
            Some(c) => char_is_digit(c),
            None => false,
        }
    }

    /// Recognises a decimal number literal at the cursor: the longest run of
    /// digits, read as a base-10 value.
    fn tokenize_number_literal(&mut self) -> (r: Token)
        requires
            old(self).pos() < old(self).chars().len(),
            is_digit_char(old(self).chars()[old(self).pos() as int]),
            digits_value(
                old(self).chars().subrange(
                    old(self).pos() as int,
                    digit_end(old(self).chars(), old(self).pos()) as int,
                ),
            ) <= i64::MAX,
        ensures
            final(self).chars() == old(self).chars(),
            final(self).toks() == old(self).toks(),
            final(self).pos() == digit_end(old(self).chars(), old(self).pos()),
            r@ == TokenModel::NumberLiteral(
                digits_value(
                    old(self).chars().subrange(old(self).pos() as int, final(self).pos() as int),
                ) as i64,
            ),
    {
        let ghost chars = self.chars();
        let ghost start = self.pos();
        let ghost end = digit_end(chars, start);
        let ghost run = chars.subrange(start as int, end as int);
        proof {
            lemma_digit_end_bounds(chars, start);
        }
        let mut parsed_number: i64 = 0;
        while self.peek_is_digit()
            invariant
                self.chars() == chars,
                self.toks() == old(self).toks(),
                start <= self.pos() <= end <= chars.len(),
                end == digit_end(chars, start),
                digit_end(chars, self.pos() as nat) == end,
                run == chars.subrange(start as int, end as int),
                digits_value(run) <= i64::MAX,
                parsed_number == digits_value(
                    chars.subrange(start as int, self.pos() as int),
                ) as i64,
                forall|k: int| start <= k < end ==> is_digit_char(#[trigger] chars[k]),
            decreases chars.len() - self.pos(),
        {
            let current_char = match self.peek() {
                Some(c) => c,
                None => vstd::pervasive::unreached(),
            };
            let ghost p = self.pos();
            proof {
                // the cursor has not reached the end of the digit run
                assert(digit_end(chars, p) == end);
                assert(p < end) by {
                    lemma_digit_end_bounds(chars, (p + 1) as nat);
                };
                assert(chars.subrange(start as int, p + 1 as int).drop_last() =~= chars.subrange(
                    start as int,
                    p as int,
                ));
                assert(chars.subrange(start as int, p + 1 as int).last() == chars[p as int]);
                // the next prefix value still fits, because it is at most
                // the whole run's value
                assert(chars.subrange(start as int, p + 1 as int) =~= run.subrange(
                    0,
                    p + 1 - start,
                ));
                lemma_digits_value_prefix(run, p + 1 - start);
            }
            let digit = (current_char as u32 - 48) as i64;
            parsed_number = parsed_number * 10 + digit;
            self.next();
        }
        proof {
            assert(digit_end(chars, self.pos() as nat) == self.pos());
            assert(chars.subrange(start as int, end as int) == run);
        }
        Token::NumberLiteral(parsed_number)
    }

    /// The single-character token a character stands for, if any.
    pub fn single_character_to_token(character: char) -> (r: Option<Token>)
        ensures
            match r {
                Some(t) => single_char_token(character) == Some(t@),
                None => single_char_token(character) is None,
            },
    {
        match character {
            '+' => Some(Token::Plus),
            '-' => Some(Token::Minus),
            '*' => Some(Token::Star),
            '/' => Some(Token::Slash),
            '=' => Some(Token::Equal),
            '(' => Some(Token::LParen),
            ')' => Some(Token::RParen),
            '{' => Some(Token::LBrace),
            '}' => Some(Token::RBrace),
            ',' => Some(Token::Comma),
            ':' => Some(Token::Colon),
            ';' => Some(Token::Semicolon),
            _ => None,
        }
    }

    /// Consumes the character under the cursor and returns its
    /// single-character token.
    fn tokenize_single_character(&mut self) -> (r: Token)
        requires
            old(self).pos() < old(self).chars().len(),
            single_char_token(old(self).chars()[old(self).pos() as int]) is Some,
        ensures
            final(self).chars() == old(self).chars(),
            final(self).toks() == old(self).toks(),
            final(self).pos() == old(self).pos() + 1,
            Some(r@) == single_char_token(old(self).chars()[old(self).pos() as int]),
    {
        let c = match self.peek_and_next() {
            Some(c) => c,
            None => vstd::pervasive::unreached(),
        };
        match Self::single_character_to_token(c) {
            Some(token) => token,
            None => vstd::pervasive::unreached(),
        }
    }

    /// Whether any source characters remain.
    fn has_more(&self) -> (b: bool)
        ensures
            b == (self.pos() < self.chars().len()),
    {
        self.source_offset < self.source_chars.len()
    }

    /// Tokenizes the whole source: skips whitespace and unknown characters,
    /// recognises identifiers, string literals, number literals and
    /// single-character tokens, stores them, and returns them.
    ///
    /// The source must be lexable: every string literal terminated and every
    /// number literal's value within range.
    pub fn tokenize(&mut self) -> (r: Vec<Token>)
        requires
            spec_lex(old(self).chars(), 0) is Some,
        ensures
            final(self).chars() == old(self).chars(),
            final(self).pos() == old(self).chars().len(),
            token_views(final(self).toks()) == spec_lex(old(self).chars(), 0).unwrap(),
            r@ == final(self).toks(),
    {
        let ghost chars = self.chars();
        self.source_offset = 0;
        self.tokens.clear();
        while self.has_more()
            invariant
                self.chars() == chars,
                self.pos() <= chars.len(),
                spec_lex(chars, 0) is Some,
                spec_lex(chars, self.pos()) is Some,
                token_views(self.toks()) + spec_lex(chars, self.pos()).unwrap() == spec_lex(
                    chars,
                    0,
                ).unwrap(),
            decreases chars.len() - self.pos(),
        {
            let ghost p = self.pos();
            let ghost rest = spec_lex(chars, p).unwrap();
            let current_character = match self.peek() {
                Some(c) => c,
                None => vstd::pervasive::unreached(),
            };
            if char_is_whitespace(current_character) {
                self.next();
            } else if char_is_ident_start(current_character) {
                let ghost toks0 = self.toks();
                let token = self.tokenize_identifier();
                let ghost t = token@;
                self.add_token(token);
                proof {
                    lemma_ident_end_bounds(chars, (p + 1) as nat);
                    lemma_token_views_push(toks0, token);
                    assert(token_views(self.toks()) + spec_lex(chars, self.pos()).unwrap() =~=
                    token_views(toks0) + (seq![t] + spec_lex(chars, self.pos()).unwrap()));
                }
            } else if current_character == '"' {
                let ghost toks0 = self.toks();
                let token = self.tokenize_string_literal();
                let ghost t = token@;
                self.add_token(token);
                proof {
                    lemma_string_close_bounds(chars, (p + 1) as nat);
                    lemma_token_views_push(toks0, token);
                    assert(token_views(self.toks()) + spec_lex(chars, self.pos()).unwrap() =~=
                    token_views(toks0) + (seq![t] + spec_lex(chars, self.pos()).unwrap()));
                }
            } else if char_is_digit(current_character) {
                let ghost toks0 = self.toks();
                let token = self.tokenize_number_literal();
                let ghost t = token@;
                self.add_token(token);
                proof {
                    lemma_digit_end_bounds(chars, p);
                    lemma_digit_end_bounds(chars, (p + 1) as nat);
                    lemma_token_views_push(toks0, token);
                    assert(token_views(self.toks()) + spec_lex(chars, self.pos()).unwrap() =~=
                    token_views(toks0) + (seq![t] + spec_lex(chars, self.pos()).unwrap()));
                }
            } else {
                match Self::single_character_to_token(current_character) {
                    Some(_) => {
                        let ghost toks0 = self.toks();
                        let token = self.tokenize_single_character();
                        let ghost t = token@;
                        self.add_token(token);
                        proof {
                            lemma_token_views_push(toks0, token);
                            assert(token_views(self.toks()) + spec_lex(chars, self.pos()).unwrap()
                                =~= token_views(toks0) + (seq![t] + spec_lex(
                                chars,
                                self.pos(),
                            ).unwrap()));
                        }
                    },
                    None => {
                        // an unknown character is skipped
                        self.next();
                    },
                }
            }
        }
        proof {
            assert(spec_lex(chars, self.pos()) == Some(Seq::<TokenModel>::empty()));
            assert(token_views(self.toks()) =~= token_views(self.toks()) + Seq::<
                TokenModel,
            >::empty());
        }
        let mut out: Vec<Token> = Vec::new();
        let mut i: usize = 0;
        while i < self.tokens.len()
            invariant
                i <= self.tokens@.len(),
                out@ == self.tokens@.subrange(0, i as int),
            decreases self.tokens@.len() - i,
        {
            let token = self.tokens[i].clone();
            out.push(token);
            proof {
                assert(out@ =~= self.tokens@.subrange(0, i + 1 as int));
            }
            i = i + 1;
        }
        proof {
            assert(out@ =~= self.tokens@);
        }
        out
    }
}

} // verus!
