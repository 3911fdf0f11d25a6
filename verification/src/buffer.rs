//! A token cursor over tokens held in memory.

use vstd::prelude::*;
use crate::cursor::TokenCursor;
use crate::token::{lexemes, Lexeme, Shape, Token};

verus! {

/// An identifier that a [`BufferCursor`] handed out.
#[derive(Clone, Debug, PartialEq, Eq)]
pub struct Word {
    /// The spelling of the identifier.
    pub text: String,
    /// The index of the identifier among the tokens of the buffer.
    pub position: usize,
}

/// An error message with the index of the token that it speaks of. The index
/// is the length of the buffer where the message speaks of its end.
#[derive(Clone, Debug, PartialEq, Eq)]
pub struct Diagnostic {
    /// The index of the token among the tokens of the buffer.
    pub position: usize,
    /// What is wrong there.
    pub message: String,
}

/// A cursor over a buffer of tokens.
pub struct BufferCursor {
    tokens: Vec<Token>,
    position: usize,
}

impl BufferCursor {
    /// The cursor never stands beyond the end of its buffer.
    #[verifier::type_invariant]
    spec fn inside(&self) -> bool {
        self.position <= self.tokens.len()
    }

    /// The tokens of the buffer, consumed or not.
    pub closed spec fn tokens(&self) -> Seq<Lexeme> {
        lexemes(self.tokens@)
    }

    /// A cursor at the start of `tokens`.
    pub fn new(tokens: Vec<Token>) -> (cursor: BufferCursor)
        ensures
            cursor.tokens() == lexemes(tokens@),
            cursor.consumed() == 0,
            cursor.unread() == lexemes(tokens@),
    {
        assert(lexemes(tokens@).skip(0) =~= lexemes(tokens@));
        BufferCursor { tokens, position: 0 }
    }

    /// The number of tokens that have been consumed.
    pub fn position(&self) -> (position: usize)
        ensures
            position == self.consumed(),
            self.consumed() <= self.tokens().len(),
            self.unread() == self.tokens().skip(self.consumed() as int),
    {
        proof {
            use_type_invariant(self);
        }
        self.position
    }

    /// A diagnostic at the place where the cursor stands.
    fn expected(&self, message: &str) -> (diagnostic: Diagnostic)
        ensures
            diagnostic.position == self.consumed(),
            diagnostic.message@ == message@,
    {
        Diagnostic { position: self.position, message: String::from_str(message) }
    }

    /// Consumes the next token if it is the given punctuation.
    fn take_punctuation(&mut self, shape: Shape, message: &str) -> (taken: Result<(), Diagnostic>)
        ensures
            taken is Ok <==> shape.leads(old(self).unread()),
            taken is Ok ==> {
                &&& final(self).unread() == old(self).unread().skip(1)
                &&& final(self).consumed() == old(self).consumed() + 1
                &&& final(self).tokens() == old(self).tokens()
            },
            taken matches Err(diagnostic) ==> {
                &&& *final(self) == *old(self)
                &&& old(self).raises(&diagnostic, message@)
            },
    {
        if self.peek(shape) {
            proof {
                use_type_invariant(&*self);
                assert(self.unread().skip(1) =~= self.tokens().skip(self.position + 1));
            }
            self.position = self.position + 1;
            Ok(())
        } else {
            Err(self.expected(message))
        }
    }
}

impl TokenCursor for BufferCursor {
    type Identifier = Word;

    type Diagnostic = Diagnostic;

    closed spec fn unread(&self) -> Seq<Lexeme> {
        self.tokens().skip(self.position as int)
    }

    closed spec fn consumed(&self) -> nat {
        self.position as nat
    }

    open spec fn spelling(identifier: &Word) -> Seq<char> {
        identifier.text@
    }

    open spec fn yields(&self, identifier: &Word) -> bool {
        &&& self.unread().len() > 0
        &&& self.unread()[0] == Lexeme::Identifier(identifier.text@)
        &&& identifier.position == self.consumed()
    }

    open spec fn refuses(&self, diagnostic: &Diagnostic) -> bool {
        self.raises(diagnostic, "expected identifier"@)
    }

    open spec fn raises(&self, diagnostic: &Diagnostic, message: Seq<char>) -> bool {
        diagnostic.position == self.consumed() && diagnostic.message@ == message
    }

    open spec fn blames(identifier: &Word, diagnostic: &Diagnostic, message: Seq<char>) -> bool {
        diagnostic.position == identifier.position && diagnostic.message@ == message
    }

    fn peek(&self, shape: Shape) -> (found: bool) {
        proof {
            use_type_invariant(self);
        }
        if self.position < self.tokens.len() {
            assert(self.unread()[0] == self.tokens@[self.position as int]@);
            match (shape, &self.tokens[self.position]) {
                (Shape::Identifier, Token::Identifier(_)) => true,
                (Shape::Literal, Token::Literal(_)) => true,
                (Shape::Dash, Token::Dash) => true,
                (Shape::Colon, Token::Colon) => true,
                _ => false,
            }
        } else {
            false
        }
    }

    fn take_identifier(&mut self) -> (taken: Result<Word, Diagnostic>)
        ensures
            taken is Ok ==> final(self).tokens() == old(self).tokens(),
    {
        proof {
            use_type_invariant(&*self);
        }
        if self.position < self.tokens.len() {
            assert(self.unread()[0] == self.tokens@[self.position as int]@);
            if let Token::Identifier(spelling) = &self.tokens[self.position] {
                let word = Word { text: spelling.clone(), position: self.position };
                assert(self.unread().skip(1) =~= self.tokens().skip(self.position + 1));
                self.position = self.position + 1;
                return Ok(word);
            }
        }
        Err(self.expected("expected identifier"))
    }

    fn take_literal(&mut self) -> (taken: Result<String, Diagnostic>)
        ensures
            taken is Ok ==> final(self).tokens() == old(self).tokens(),
            taken matches Err(diagnostic) ==> old(self).raises(&diagnostic, "expected string literal"@),
    {
        proof {
            use_type_invariant(&*self);
        }
        if self.position < self.tokens.len() {
            assert(self.unread()[0] == self.tokens@[self.position as int]@);
            if let Token::Literal(text) = &self.tokens[self.position] {
                let text = text.clone();
                assert(self.unread().skip(1) =~= self.tokens().skip(self.position + 1));
                self.position = self.position + 1;
                return Ok(text);
            }
        }
        Err(self.expected("expected string literal"))
    }

    fn take_dash(&mut self) -> (taken: Result<(), Diagnostic>)
        ensures
            taken is Ok ==> final(self).tokens() == old(self).tokens(),
            taken matches Err(diagnostic) ==> old(self).raises(&diagnostic, "expected `-`"@),
    {
        self.take_punctuation(Shape::Dash, "expected `-`")
    }

    fn take_colon(&mut self) -> (taken: Result<(), Diagnostic>)
        ensures
            taken is Ok ==> final(self).tokens() == old(self).tokens(),
            taken matches Err(diagnostic) ==> old(self).raises(&diagnostic, "expected `:`"@),
    {
        self.take_punctuation(Shape::Colon, "expected `:`")
    }

    fn text(identifier: &Word) -> (text: String) {
        identifier.text.clone()
    }

    fn error(&self, message: &str) -> (diagnostic: Diagnostic) {
        self.expected(message)
    }

    fn error_at(identifier: &Word, message: &str) -> (diagnostic: Diagnostic) {
        Diagnostic { position: identifier.position, message: String::from_str(message) }
    }
}

} // verus!
