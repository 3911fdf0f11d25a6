//! The parsers.

use vstd::prelude::*;
use crate::cursor::TokenCursor;
use crate::grammar::{
    attribute_name, attribute_name_within, attribute_type, dashed, element_tag, name_tail,
    unknown_directive,
};
use crate::node::{AttributeType, AttributeTypeView, ElementTag, Failure, ParseError};
use crate::policy::BooleanPolicy;
use crate::token::{Lexeme, Shape};

verus! {

impl ElementTag {
    /// Parses the tag of an element: an identifier names a builtin element, a
    /// string literal a custom one.
    ///
    /// Exactly one token is consumed on success. Where the next token is
    /// neither, the cursor stays where it is, and the error carries the
    /// diagnostic raised there with the message `expected an element`.
    pub fn parse<C: TokenCursor>(cursor: &mut C) -> (parsed: Result<
        ElementTag,
        ParseError<C::Diagnostic>,
    >)
        ensures
            match element_tag(old(cursor).unread()) {
                Some(tag) => {
                    &&& parsed matches Ok(found)
                    &&& found@ == tag
                    &&& final(cursor).unread() == old(cursor).unread().skip(1)
                    &&& final(cursor).consumed() == old(cursor).consumed() + 1
                },
                None => {
                    &&& parsed matches Err(ParseError::MissingElement(diagnostic))
                    &&& old(cursor).raises(&diagnostic, "expected an element"@)
                    &&& *final(cursor) == *old(cursor)
                },
            },
    {
        if cursor.peek(Shape::Identifier) {
            match cursor.take_identifier() {
                Ok(identifier) => Ok(ElementTag::Builtin(C::text(&identifier))),
                Err(diagnostic) => Err(ParseError::MissingElement(diagnostic)),
            }
        } else if cursor.peek(Shape::Literal) {
            match cursor.take_literal() {
                Ok(text) => Ok(ElementTag::Custom(text)),
                Err(diagnostic) => Err(ParseError::MissingElement(diagnostic)),
            }
        } else {
            Err(ParseError::MissingElement(cursor.error("expected an element")))
        }
    }
}

/// The name of an attribute as it was read: a first identifier and those that
/// follow it, each after a dash. It lives only until the attribute is
/// classified.
pub struct AttributeName<C: TokenCursor> {
    /// The first segment.
    pub tag: C::Identifier,
    /// The segments after the first, in the order in which they were read.
    pub extended: Vec<C::Identifier>,
}

impl<C: TokenCursor> AttributeName<C> {
    /// The spellings of the segments, the first segment first.
    pub open spec fn segments(&self) -> Seq<Seq<char>> {
        seq![C::spelling(&self.tag)] + self.extended@.map_values(
            |segment: C::Identifier| C::spelling(&segment),
        )
    }

    /// Parses `ID ( '-' ID )*`. The loop ends at the first token after a
    /// segment that is no dash.
    ///
    /// It fails where the first token, or the token after a dash, is no
    /// identifier. The cursor then stands at that token, and the error carries
    /// the diagnostic with which the cursor refused it.
    pub fn parse(cursor: &mut C) -> (parsed: Result<AttributeName<C>, ParseError<C::Diagnostic>>)
        ensures
            final(cursor).unread() == old(cursor).unread().skip(
                attribute_name(old(cursor).unread()).length as int,
            ),
            final(cursor).consumed() == old(cursor).consumed() + attribute_name(
                old(cursor).unread(),
            ).length,
            match parsed {
                Ok(name) => {
                    &&& attribute_name(old(cursor).unread()).complete
                    &&& name.segments() == attribute_name(old(cursor).unread()).segments
                    &&& old(cursor).yields(&name.tag)
                },
                Err(error) => {
                    &&& !attribute_name(old(cursor).unread()).complete
                    &&& error matches ParseError::MalformedAttributeName(diagnostic)
                    &&& final(cursor).refuses(&diagnostic)
                },
            },
    {
        let ghost tokens = cursor.unread();
        let tag = match cursor.take_identifier() {
            Ok(identifier) => identifier,
            Err(diagnostic) => {
                return Err(ParseError::MalformedAttributeName(diagnostic));
            },
        };
        let mut extended: Vec<C::Identifier> = Vec::new();
        let ghost mut read: Seq<Seq<char>> = seq![C::spelling(&tag)];
        while cursor.peek(Shape::Dash)
            invariant
                read == seq![C::spelling(&tag)] + extended@.map_values(
                    |segment: C::Identifier| C::spelling(&segment),
                ),
                tokens == old(cursor).unread(),
                old(cursor).yields(&tag),
                1 + 2 * extended.len() <= tokens.len(),
                cursor.unread() == tokens.skip(1 + 2 * extended.len()),
                cursor.consumed() == old(cursor).consumed() + 1 + 2 * extended.len(),
                attribute_name(tokens).segments == read + name_tail(cursor.unread()).segments,
                attribute_name(tokens).length == 1 + 2 * extended.len() + name_tail(
                    cursor.unread(),
                ).length,
                attribute_name(tokens).complete == name_tail(cursor.unread()).complete,
            decreases cursor.unread().len(),
        {
            let ghost here = cursor.unread();
            match cursor.take_dash() {
                Ok(()) => {},
                Err(diagnostic) => {
                    return Err(ParseError::MalformedAttributeName(diagnostic));
                },
            }
            assert(here.skip(1) =~= tokens.skip(2 + 2 * extended.len()));
            match cursor.take_identifier() {
                Ok(identifier) => {
                    proof {
                        let spelling = C::spelling(&identifier);
                        assert(here[1] == here.skip(1)[0]);
                        assert(here.skip(1).skip(1) =~= here.skip(2));
                        assert(here.skip(2) =~= tokens.skip(1 + 2 * (extended.len() + 1)));
                        assert(read.push(spelling) + name_tail(here.skip(2)).segments =~= read
                            + (seq![spelling] + name_tail(here.skip(2)).segments));
                        assert(extended@.push(identifier).map_values(
                            |segment: C::Identifier| C::spelling(&segment),
                        ) =~= extended@.map_values(
                            |segment: C::Identifier| C::spelling(&segment),
                        ).push(spelling));
                        read = read.push(spelling);
                    }
                    extended.push(identifier);
                },
                Err(diagnostic) => {
                    assert(here.len() > 1 ==> here[1] == here.skip(1)[0]);
                    return Err(ParseError::MalformedAttributeName(diagnostic));
                },
            }
        }
        Ok(AttributeName { tag, extended })
    }

    /// The key by which the attribute is looked up: the segments joined by
    /// dashes, in the order in which they were read.
    pub fn key(&self) -> (key: String)
        ensures
            key@ == dashed(self.segments()),
    {
        let mut key = C::text(&self.tag);
        let mut i: usize = 0;
        assert(self.segments().take(1) == seq![C::spelling(&self.tag)]);
        while i < self.extended.len()
            invariant
                i <= self.extended.len(),
                key@ == dashed(self.segments().take(i + 1)),
            decreases self.extended.len() - i,
        {
            let segment = C::text(&self.extended[i]);
            key.append("-");
            key.append(segment.as_str());
            proof {
                reveal_strlit("-");
                let longer = self.segments().take(i + 2);
                assert(longer.drop_last() == self.segments().take(i + 1));
                assert(longer.last() == C::spelling(&self.extended[i as int]));
                assert("-"@ == seq!['-']);
            }
            i += 1;
        }
        assert(self.segments().take(self.extended.len() + 1) == self.segments());
        key
    }
}

/// Whether `diagnostic` points with `message` at the identifier that `cursor`
/// hands out where it stands.
pub open spec fn blames_leading<C: TokenCursor>(
    cursor: &C,
    diagnostic: C::Diagnostic,
    message: Seq<char>,
) -> bool {
    exists|leading: C::Identifier|
        {
            &&& cursor.yields(&leading)
            &&& #[trigger] C::blames(&leading, &diagnostic, message)
        }
}

/// Whether `text` is spelled as `word` is.
fn spelled(text: &String, word: &str) -> (same: bool)
    ensures
        same == (text@ == word@),
{
    *text == String::from_str(word)
}

impl AttributeType {
    /// Parses an attribute: its name, and what the name and the token after it
    /// make of it. The first rule that applies decides, and nothing is tried
    /// again after it:
    ///
    /// 1. the name `ref` is [`AttributeType::Ref`];
    /// 2. the name `dangerously_set_inner_html` is
    ///    [`AttributeType::DangerouslySetInnerHtml`];
    /// 3. a name before a colon is a directive. The colon is consumed, then
    ///    `on` takes an identifier and is [`AttributeType::Event`], `bind`
    ///    takes an identifier and is [`AttributeType::Bind`], and every other
    ///    name fails as an unknown directive;
    /// 4. a name that the policy classifies as boolean is
    ///    [`AttributeType::Bool`];
    /// 5. any other name is [`AttributeType::Str`].
    ///
    /// The policy is asked only where the rules 1 to 3 do not apply. After a
    /// failure the cursor stands where [`attribute_type`] says: at the token
    /// that should have been an identifier, or behind the colon of an unknown
    /// directive.
    pub fn parse<C: TokenCursor, P: BooleanPolicy>(cursor: &mut C, policy: &P) -> (parsed: Result<
        AttributeType,
        ParseError<C::Diagnostic>,
    >)
        ensures
            final(cursor).unread() == old(cursor).unread().skip(
                attribute_type(old(cursor).unread(), policy).length as int,
            ),
            final(cursor).consumed() == old(cursor).consumed() + attribute_type(
                old(cursor).unread(),
                policy,
            ).length,
            match parsed {
                Ok(found) => attribute_type(old(cursor).unread(), policy).result == Ok::<
                    AttributeTypeView,
                    Failure,
                >(found@),
                Err(error) => {
                    &&& attribute_type(old(cursor).unread(), policy).result == Err::<
                        AttributeTypeView,
                        Failure,
                    >(error.failure())
                    &&& match error {
                        ParseError::UnknownDirective { name, diagnostic } => blames_leading(
                            old(cursor),
                            diagnostic,
                            unknown_directive(name@),
                        ),
                        ParseError::MalformedAttributeName(diagnostic) => final(cursor).refuses(
                            &diagnostic,
                        ),
                        ParseError::MissingElement(_) => false,
                    }
                },
            },
    {
        let name = match AttributeName::<C>::parse(cursor) {
            Ok(name) => name,
            Err(error) => {
                return Err(error);
            },
        };
        let key = name.key();
        proof {
            attribute_name_within(old(cursor).unread());
        }
        if spelled(&key, "ref") {
            Ok(AttributeType::Ref)
        } else if spelled(&key, "dangerously_set_inner_html") {
            Ok(AttributeType::DangerouslySetInnerHtml)
        } else if cursor.peek(Shape::Colon) {
            let ghost colon = cursor.unread();
            match cursor.take_colon() {
                Ok(()) => {},
                Err(diagnostic) => {
                    return Err(ParseError::MalformedAttributeName(diagnostic));
                },
            }
            assert(colon.skip(1) =~= old(cursor).unread().skip(
                (attribute_name(old(cursor).unread()).length + 1) as int,
            ));
            if spelled(&key, "on") {
                match cursor.take_identifier() {
                    Ok(event) => {
                        assert(colon.skip(1).skip(1) =~= old(cursor).unread().skip(
                            (attribute_name(old(cursor).unread()).length + 2) as int,
                        ));
                        Ok(AttributeType::Event { event: C::text(&event) })
                    },
                    Err(diagnostic) => Err(ParseError::MalformedAttributeName(diagnostic)),
                }
            } else if spelled(&key, "bind") {
                match cursor.take_identifier() {
                    Ok(prop) => {
                        assert(colon.skip(1).skip(1) =~= old(cursor).unread().skip(
                            (attribute_name(old(cursor).unread()).length + 2) as int,
                        ));
                        Ok(AttributeType::Bind { prop: C::text(&prop) })
                    },
                    Err(diagnostic) => Err(ParseError::MalformedAttributeName(diagnostic)),
                }
            } else {
                let mut message = String::from_str("unknown directive `");
                message.append(key.as_str());
                message.append("`");
                let diagnostic = C::error_at(&name.tag, message.as_str());
                assert(message@ =~= unknown_directive(key@));
                assert(C::blames(&name.tag, &diagnostic, unknown_directive(key@)));
                Err(ParseError::UnknownDirective { name: key, diagnostic })
            }
        } else if policy.is_boolean_attribute(key.as_str()) {
            Ok(AttributeType::Bool { name: key })
        } else {
            Ok(AttributeType::Str { name: key })
        }
    }
}

} // verus!
