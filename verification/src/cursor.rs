//! The capability that the grammars need of a tokenizer.

use vstd::prelude::*;
use crate::token::{Lexeme, Shape};

verus! {

/// A position in a stream of tokens, with one token of lookahead.
///
/// The grammars read tokens through this trait alone. A cursor moves forward
/// only, by one token for each token that it hands out: the unread tokens lose
/// their first, and the count of consumed tokens grows by one. Peeking moves
/// nothing.
pub trait TokenCursor: Sized {
    /// An identifier that the cursor handed out. It remembers its place, so
    /// that a diagnostic can point at it later.
    type Identifier;

    /// An error with the place in the source that it speaks of.
    type Diagnostic;

    /// The tokens that have not been consumed yet.
    spec fn unread(&self) -> Seq<Lexeme>;

    /// The number of tokens that the cursor has consumed.
    spec fn consumed(&self) -> nat;

    /// The spelling of an identifier that a cursor of this type handed out.
    spec fn spelling(identifier: &Self::Identifier) -> Seq<char>;

    /// Whether `identifier` is the one that this cursor hands out where it
    /// stands.
    spec fn yields(&self, identifier: &Self::Identifier) -> bool;

    /// Whether `diagnostic` is the one with which this cursor, where it stands,
    /// refuses to hand out an identifier.
    spec fn refuses(&self, diagnostic: &Self::Diagnostic) -> bool;

    /// Whether `diagnostic` is the one that this cursor raises where it stands
    /// for `message`.
    spec fn raises(&self, diagnostic: &Self::Diagnostic, message: Seq<char>) -> bool;

    /// Whether `diagnostic` is the one that points at `identifier` with
    /// `message`.
    spec fn blames(
        identifier: &Self::Identifier,
        diagnostic: &Self::Diagnostic,
        message: Seq<char>,
    ) -> bool;

    /// Whether the next token is of the given shape. Consumes nothing.
    fn peek(&self, shape: Shape) -> (found: bool)
        ensures
            found == shape.leads(self.unread()),
    ;

    /// Consumes the next token if it is an identifier, and hands it out.
    /// Otherwise the cursor stays where it is and refuses.
    fn take_identifier(&mut self) -> (taken: Result<Self::Identifier, Self::Diagnostic>)
        ensures
            match taken {
                Ok(identifier) => {
                    &&& old(self).unread().len() > 0
                    &&& old(self).unread()[0] == Lexeme::Identifier(Self::spelling(&identifier))
                    &&& old(self).yields(&identifier)
                    &&& final(self).unread() == old(self).unread().skip(1)
                    &&& final(self).consumed() == old(self).consumed() + 1
                },
                Err(diagnostic) => {
                    &&& !Shape::Identifier.leads(old(self).unread())
                    &&& *final(self) == *old(self)
                    &&& old(self).refuses(&diagnostic)
                },
            },
    ;

    /// Consumes the next token if it is a string literal, and returns the text
    /// that the literal denotes. It fails exactly if the next token is no
    /// string literal, and the cursor then stays where it is.
    fn take_literal(&mut self) -> (taken: Result<String, Self::Diagnostic>)
        ensures
            taken is Ok <==> Shape::Literal.leads(old(self).unread()),
            taken is Err ==> *final(self) == *old(self),
            taken matches Ok(text) ==> {
                &&& old(self).unread()[0] == Lexeme::Literal(text@)
                &&& final(self).unread() == old(self).unread().skip(1)
                &&& final(self).consumed() == old(self).consumed() + 1
            },
    ;

    /// Consumes the next token if it is a dash. It fails exactly if the next
    /// token is no dash, and the cursor then stays where it is.
    fn take_dash(&mut self) -> (taken: Result<(), Self::Diagnostic>)
        ensures
            taken is Ok <==> Shape::Dash.leads(old(self).unread()),
            taken is Err ==> *final(self) == *old(self),
            taken is Ok ==> {
                &&& final(self).unread() == old(self).unread().skip(1)
                &&& final(self).consumed() == old(self).consumed() + 1
            },
    ;

    /// Consumes the next token if it is a colon. It fails exactly if the next
    /// token is no colon, and the cursor then stays where it is.
    fn take_colon(&mut self) -> (taken: Result<(), Self::Diagnostic>)
        ensures
            taken is Ok <==> Shape::Colon.leads(old(self).unread()),
            taken is Err ==> *final(self) == *old(self),
            taken is Ok ==> {
                &&& final(self).unread() == old(self).unread().skip(1)
                &&& final(self).consumed() == old(self).consumed() + 1
            },
    ;

    /// The spelling of an identifier.
    fn text(identifier: &Self::Identifier) -> (text: String)
        ensures
            text@ == Self::spelling(identifier),
    ;

    /// A diagnostic at the place where the cursor stands.
    fn error(&self, message: &str) -> (diagnostic: Self::Diagnostic)
        ensures
            self.raises(&diagnostic, message@),
    ;

    /// A diagnostic at the place of an identifier that was handed out.
    fn error_at(identifier: &Self::Identifier, message: &str) -> (diagnostic: Self::Diagnostic)
        ensures
            Self::blames(identifier, &diagnostic, message@),
    ;
}

} // verus!
