//! Tokens, as far as the grammars tell them apart.

use vstd::prelude::*;

verus! {

/// The mathematical model of one token.
pub enum Lexeme {
    /// An identifier or a keyword, with its spelling.
    Identifier(Seq<char>),
    /// A string literal, with the text that it denotes.
    Literal(Seq<char>),
    /// The punctuation `-`.
    Dash,
    /// The punctuation `:`.
    Colon,
    /// Any other token.
    Other,
}

/// A token held in memory. An identifier may be spelled in any way: the
/// grammars never look into a spelling, so one that holds a dash is still one
/// token and one segment of a name.
#[derive(Clone, Debug, PartialEq, Eq)]
pub enum Token {
    /// An identifier or a keyword, with its spelling.
    Identifier(String),
    /// A string literal, with the text that it denotes.
    Literal(String),
    /// The punctuation `-`.
    Dash,
    /// The punctuation `:`.
    Colon,
    /// Any other token.
    Other,
}

impl View for Token {
    type V = Lexeme;

    open spec fn view(&self) -> Lexeme {
        match self {
            Token::Identifier(spelling) => Lexeme::Identifier(spelling@),
            Token::Literal(text) => Lexeme::Literal(text@),
            Token::Dash => Lexeme::Dash,
            Token::Colon => Lexeme::Colon,
            Token::Other => Lexeme::Other,
        }
    }
}

/// The model of a sequence of tokens held in memory.
pub open spec fn lexemes(tokens: Seq<Token>) -> Seq<Lexeme> {
    tokens.map_values(|token: Token| token@)
}

/// A kind of token that a cursor can be asked for.
#[derive(Clone, Copy, Debug, PartialEq, Eq)]
pub enum Shape {
    /// An identifier; a keyword counts as one.
    Identifier,
    /// A string literal.
    Literal,
    /// The punctuation `-`.
    Dash,
    /// The punctuation `:`.
    Colon,
}

impl Shape {
    /// Whether `lexeme` is of this shape.
    pub open spec fn fits(self, lexeme: Lexeme) -> bool {
        match self {
            Shape::Identifier => lexeme is Identifier,
            Shape::Literal => lexeme is Literal,
            Shape::Dash => lexeme is Dash,
            Shape::Colon => lexeme is Colon,
        }
    }

    /// Whether `tokens` begin with a token of this shape.
    pub open spec fn leads(self, tokens: Seq<Lexeme>) -> bool {
        tokens.len() > 0 && self.fits(tokens[0])
    }
}

} // verus!
