//! A token cursor over a parse stream of `syn`.
//!
//! Verus does not look into `syn`. What is assumed of it stands in the items
//! marked `external_body` and in the functions without a body below: one
//! private function for each function of `syn` that is called, with a doc
//! comment that names it. [`StreamCursor`] is verified against them.
//!
//! A stream of `syn` keeps its position in a cell and moves through a shared
//! reference, which anyone may hold. So a cursor does not move the stream that
//! it is made of. It forks the stream, which gives it a position of its own,
//! and holds the fork in a [`Stream`], a value that is opaque to Verus. What
//! is assumed of `syn` is stated of that value: nothing but the cursor that
//! owns it can move it. [`StreamCursor::finish`] moves the stream that the
//! cursor was made of to where the cursor stands.

use vstd::prelude::*;
use crate::cursor::TokenCursor;
use crate::token::{Lexeme, Shape};

verus! {

#[verifier::external_type_specification]
#[verifier::external_body]
pub struct ExParseBuffer<'a>(syn::parse::ParseBuffer<'a>);

#[verifier::external_type_specification]
#[verifier::external_body]
pub struct ExError(syn::Error);

#[verifier::external_type_specification]
#[verifier::external_body]
pub struct ExIdent(syn::Ident);

#[verifier::external_type_specification]
#[verifier::external_body]
pub struct ExLitStr(syn::LitStr);

/// A fork of a parse stream of `syn`, with the stream that it was forked
/// from. The value stands for the fork and the position at which it stands.
/// The fork has a position of its own, and nothing outside this value holds a
/// reference to it.
#[verifier::external_body]
pub struct Stream<'a> {
    origin: &'a syn::parse::ParseBuffer<'a>,
    fork: syn::parse::ParseBuffer<'a>,
}

/// The tokens of a fork from its position to its end. A token is an
/// identifier where `Cursor::ident` yields one, a string literal where
/// parsing a `LitStr` succeeds, a dash or a colon where `Cursor::punct` yields
/// that character, and some other token otherwise. Groups without delimiters
/// are transparent, as they are to those functions.
pub uninterp spec fn stream_tokens(stream: &Stream) -> Seq<Lexeme>;

/// The identifier that `Ident::parse_any` returns at the position of a fork
/// where it succeeds.
pub uninterp spec fn stream_ident(stream: &Stream) -> syn::Ident;

/// The spelling of an identifier: what `Ident::to_string` returns.
pub uninterp spec fn ident_spelling(ident: &syn::Ident) -> Seq<char>;

/// The text that a string literal denotes: what `LitStr::value` returns.
pub uninterp spec fn literal_text(literal: &syn::LitStr) -> Seq<char>;

/// The error that `ParseBuffer::error` returns for `message` at the position
/// of a fork.
pub uninterp spec fn stream_error(stream: &Stream, message: Seq<char>) -> syn::Error;

/// The error that `Error::new_spanned` returns for an identifier and
/// `message`.
pub uninterp spec fn spanned_error(ident: &syn::Ident, message: Seq<char>) -> syn::Error;

/// `ParseBuffer::fork`: a stream of its own at the position of `stream`.
/// Nothing is said of the tokens that it holds: they are those of `stream` at
/// the moment of the call, which the reference does not tell.
#[verifier::external_body]
fn hold<'a>(stream: &'a syn::parse::ParseBuffer<'a>) -> Stream<'a> {
    Stream { origin: stream, fork: stream.fork() }
}

/// `Speculative::advance_to`: moves the stream that the fork was made of to
/// the position of the fork. It panics only where the fork was made of
/// another stream. That cannot be: [`hold`] alone makes a [`Stream`], and it
/// forks the very stream that it stores with the fork.
#[verifier::external_body]
fn release<'a>(stream: Stream<'a>) {
    syn::parse::discouraged::Speculative::advance_to(stream.origin, &stream.fork)
}

/// `ParseBuffer::peek` with `Ident::peek_any`: whether `Cursor::ident` yields
/// an identifier at the position of the stream. Keywords count.
#[verifier::external_body]
fn peek_identifier(stream: &Stream) -> (found: bool)
    ensures
        found == Shape::Identifier.leads(stream_tokens(stream)),
{
    stream.fork.peek(<syn::Ident as syn::ext::IdentExt>::peek_any)
}

/// `ParseBuffer::peek` with `LitStr`: whether parsing a `LitStr` at the
/// position of the stream would succeed.
#[verifier::external_body]
fn peek_literal(stream: &Stream) -> (found: bool)
    ensures
        found == Shape::Literal.leads(stream_tokens(stream)),
{
    stream.fork.peek(syn::LitStr)
}

/// `ParseBuffer::peek` with the token `-`: whether the next token is the
/// punctuation character `-`, whatever follows it.
#[verifier::external_body]
fn peek_dash(stream: &Stream) -> (found: bool)
    ensures
        found == Shape::Dash.leads(stream_tokens(stream)),
{
    stream.fork.peek(syn::token::Minus)
}

/// `ParseBuffer::peek` with the token `:`: whether the next token is the
/// punctuation character `:`, whatever follows it.
#[verifier::external_body]
fn peek_colon(stream: &Stream) -> (found: bool)
    ensures
        found == Shape::Colon.leads(stream_tokens(stream)),
{
    stream.fork.peek(syn::token::Colon)
}

/// `Ident::parse_any`: where the next token is an identifier, the stream
/// moves past it and the identifier is returned. Otherwise the stream stays,
/// and the error is the one that `ParseBuffer::error` makes there for
/// `expected ident`.
#[verifier::external_body]
fn parse_identifier(stream: &mut Stream) -> (parsed: Result<syn::Ident, syn::Error>)
    ensures
        match parsed {
            Ok(ident) => {
                &&& ident == stream_ident(old(stream))
                &&& stream_tokens(old(stream)).len() > 0
                &&& stream_tokens(old(stream))[0] == Lexeme::Identifier(ident_spelling(&ident))
                &&& stream_tokens(final(stream)) == stream_tokens(old(stream)).skip(1)
            },
            Err(error) => {
                &&& !Shape::Identifier.leads(stream_tokens(old(stream)))
                &&& *final(stream) == *old(stream)
                &&& error == stream_error(old(stream), "expected ident"@)
            },
        },
{
    <syn::Ident as syn::ext::IdentExt>::parse_any(&stream.fork)
}

/// `ParseBuffer::parse` of a `LitStr`: it succeeds exactly where peeking a
/// `LitStr` does, and then the stream moves past that one literal. Nothing is
/// said of the stream after a failure: `syn` may have moved it.
#[verifier::external_body]
fn parse_literal(stream: &mut Stream) -> (parsed: Result<syn::LitStr, syn::Error>)
    ensures
        parsed is Ok <==> Shape::Literal.leads(stream_tokens(old(stream))),
        parsed matches Ok(literal) ==> {
            &&& stream_tokens(old(stream))[0] == Lexeme::Literal(literal_text(&literal))
            &&& stream_tokens(final(stream)) == stream_tokens(old(stream)).skip(1)
        },
{
    stream.fork.parse::<syn::LitStr>()
}

/// `ParseBuffer::parse` of the token `-`: it succeeds exactly where the next
/// token is the punctuation character `-`, and then the stream moves past
/// that character. Where it fails the stream stays: the token is parsed in
/// `ParseBuffer::step`, which moves the stream on success only.
#[verifier::external_body]
fn parse_dash(stream: &mut Stream) -> (parsed: Result<(), syn::Error>)
    ensures
        parsed is Ok <==> Shape::Dash.leads(stream_tokens(old(stream))),
        parsed is Err ==> *final(stream) == *old(stream),
        parsed is Ok ==> stream_tokens(final(stream)) == stream_tokens(old(stream)).skip(1),
{
    match stream.fork.parse::<syn::token::Minus>() {
        Ok(_) => Ok(()),
        Err(error) => Err(error),
    }
}

/// `ParseBuffer::parse` of the token `:`: it succeeds exactly where the next
/// token is the punctuation character `:`, and then the stream moves past
/// that character. Where it fails the stream stays: the token is parsed in
/// `ParseBuffer::step`, which moves the stream on success only.
#[verifier::external_body]
fn parse_colon(stream: &mut Stream) -> (parsed: Result<(), syn::Error>)
    ensures
        parsed is Ok <==> Shape::Colon.leads(stream_tokens(old(stream))),
        parsed is Err ==> *final(stream) == *old(stream),
        parsed is Ok ==> stream_tokens(final(stream)) == stream_tokens(old(stream)).skip(1),
{
    match stream.fork.parse::<syn::token::Colon>() {
        Ok(_) => Ok(()),
        Err(error) => Err(error),
    }
}

/// `Ident::to_string`: the spelling of the identifier.
#[verifier::external_body]
fn identifier_text(ident: &syn::Ident) -> (text: String)
    ensures
        text@ == ident_spelling(ident),
{
    ident.to_string()
}

/// `LitStr::value`: the text that the literal denotes, without its quotes and
/// with its escapes resolved.
#[verifier::external_body]
fn literal_value(literal: &syn::LitStr) -> (text: String)
    ensures
        text@ == literal_text(literal),
{
    literal.value()
}

/// `ParseBuffer::error`: an error at the position of the stream.
#[verifier::external_body]
fn error_here(stream: &Stream, message: &str) -> (error: syn::Error)
    ensures
        error == stream_error(stream, message@),
{
    stream.fork.error(message)
}

/// `Error::new_spanned` on an identifier: an error at the place of the
/// identifier.
#[verifier::external_body]
fn error_spanned(ident: &syn::Ident, message: &str) -> (error: syn::Error)
    ensures
        error == spanned_error(ident, message@),
{
    syn::Error::new_spanned(ident, message)
}

/// A cursor over a parse stream of `syn`.
///
/// The cursor reads a fork of the stream that it was made of, so it has a
/// position of its own: nothing else moves the cursor, and the cursor moves
/// nothing else. The stream itself moves when the cursor is finished.
pub struct StreamCursor<'a> {
    stream: Stream<'a>,
    consumed: Ghost<nat>,
}

impl<'a> StreamCursor<'a> {
    /// A cursor at the position of `stream`, which has consumed nothing yet.
    ///
    /// Nothing is stated of the tokens that the cursor holds: they are those
    /// that the stream holds at this moment, and the reference does not tell
    /// them.
    pub fn new(stream: &'a syn::parse::ParseBuffer<'a>) -> (cursor: StreamCursor<'a>)
        ensures
            cursor.consumed() == 0,
    {
        StreamCursor { stream: hold(stream), consumed: Ghost(0) }
    }

    /// Ends the cursor and moves the stream that it was made of to where the
    /// cursor stands, wherever the stream stood. A cursor that is dropped
    /// leaves the stream where it is.
    pub fn finish(self) {
        release(self.stream)
    }

    /// The fork that the cursor reads, as the cursor has moved it.
    pub closed spec fn stream(&self) -> Stream<'a> {
        self.stream
    }
}

impl<'a> TokenCursor for StreamCursor<'a> {
    type Identifier = syn::Ident;

    type Diagnostic = syn::Error;

    open spec fn unread(&self) -> Seq<Lexeme> {
        stream_tokens(&self.stream())
    }

    closed spec fn consumed(&self) -> nat {
        self.consumed@
    }

    open spec fn spelling(identifier: &syn::Ident) -> Seq<char> {
        ident_spelling(identifier)
    }

    open spec fn yields(&self, identifier: &syn::Ident) -> bool {
        *identifier == stream_ident(&self.stream())
    }

    open spec fn refuses(&self, diagnostic: &syn::Error) -> bool {
        self.raises(diagnostic, "expected ident"@)
    }

    open spec fn raises(&self, diagnostic: &syn::Error, message: Seq<char>) -> bool {
        *diagnostic == stream_error(&self.stream(), message)
    }

    open spec fn blames(identifier: &syn::Ident, diagnostic: &syn::Error, message: Seq<char>) -> bool {
        *diagnostic == spanned_error(identifier, message)
    }

    fn peek(&self, shape: Shape) -> (found: bool) {
        match shape {
            Shape::Identifier => peek_identifier(&self.stream),
            Shape::Literal => peek_literal(&self.stream),
            Shape::Dash => peek_dash(&self.stream),
            Shape::Colon => peek_colon(&self.stream),
        }
    }

    fn take_identifier(&mut self) -> (taken: Result<syn::Ident, syn::Error>) {
        let taken = parse_identifier(&mut self.stream);
        if taken.is_ok() {
            self.consumed = Ghost(self.consumed@ + 1);
        }
        taken
    }

    fn take_literal(&mut self) -> (taken: Result<String, syn::Error>)
        ensures
            taken matches Err(diagnostic) ==> old(self).raises(
                &diagnostic,
                "expected string literal"@,
            ),
    {
        if !peek_literal(&self.stream) {
            return Err(error_here(&self.stream, "expected string literal"));
        }
        match parse_literal(&mut self.stream) {
            Ok(literal) => {
                self.consumed = Ghost(self.consumed@ + 1);
                Ok(literal_value(&literal))
            },
            Err(error) => Err(error),
        }
    }

    fn take_dash(&mut self) -> (taken: Result<(), syn::Error>) {
        let taken = parse_dash(&mut self.stream);
        if taken.is_ok() {
            self.consumed = Ghost(self.consumed@ + 1);
        }
        taken
    }

    fn take_colon(&mut self) -> (taken: Result<(), syn::Error>) {
        let taken = parse_colon(&mut self.stream);
        if taken.is_ok() {
            self.consumed = Ghost(self.consumed@ + 1);
        }
        taken
    }

    fn text(identifier: &syn::Ident) -> (text: String) {
        identifier_text(identifier)
    }

    fn error(&self, message: &str) -> (diagnostic: syn::Error) {
        error_here(&self.stream, message)
    }

    fn error_at(identifier: &syn::Ident, message: &str) -> (diagnostic: syn::Error) {
        error_spanned(identifier, message)
    }
}

} // verus!
