//! What the parsers compute, as functions of the unread tokens.
//!
//! ```text
//! element-tag    := ID | STR
//! attribute-name := ID ( '-' ID )*
//! attribute-type := 'ref' | 'dangerously_set_inner_html'
//!                 | ( 'on' | 'bind' ) ':' ID
//!                 | attribute-name
//! ```

use vstd::prelude::*;
use crate::node::{AttributeTypeView, ElementTagView, Failure};
use crate::policy::BooleanPolicy;
use crate::token::{Lexeme, Shape};

verus! {

/// The element tag that `tokens` begin with, if any.
pub open spec fn element_tag(tokens: Seq<Lexeme>) -> Option<ElementTagView> {
    if tokens.len() == 0 {
        None
    } else {
        match tokens[0] {
            Lexeme::Identifier(name) => Some(ElementTagView::Builtin(name)),
            Lexeme::Literal(text) => Some(ElementTagView::Custom(text)),
            _ => None,
        }
    }
}

/// How far the grammar of attribute names gets on a sequence of tokens.
pub struct NameScan {
    /// The segments that were read, in the order of the tokens.
    pub segments: Seq<Seq<char>>,
    /// The number of tokens that were consumed.
    pub length: nat,
    /// Whether a whole name was read. If not, the token after the consumed
    /// ones should have been an identifier and is none.
    pub complete: bool,
}

/// The scan of `( '-' ID )*`: the segments of a name after its first.
pub open spec fn name_tail(tokens: Seq<Lexeme>) -> NameScan
    decreases tokens.len(),
{
    if !Shape::Dash.leads(tokens) {
        NameScan { segments: Seq::empty(), length: 0, complete: true }
    } else if tokens.len() > 1 && tokens[1] is Identifier {
        let rest = name_tail(tokens.skip(2));
        NameScan {
            segments: seq![tokens[1]->Identifier_0] + rest.segments,
            length: rest.length + 2,
            complete: rest.complete,
        }
    } else {
        NameScan { segments: Seq::empty(), length: 1, complete: false }
    }
}

/// The scan of `ID ( '-' ID )*`: an attribute name.
pub open spec fn attribute_name(tokens: Seq<Lexeme>) -> NameScan {
    if Shape::Identifier.leads(tokens) {
        let rest = name_tail(tokens.skip(1));
        NameScan {
            segments: seq![tokens[0]->Identifier_0] + rest.segments,
            length: rest.length + 1,
            complete: rest.complete,
        }
    } else {
        NameScan { segments: Seq::empty(), length: 0, complete: false }
    }
}

/// The scan of the segments after the first consumes no more tokens than
/// there are.
pub proof fn name_tail_within(tokens: Seq<Lexeme>)
    ensures
        name_tail(tokens).length <= tokens.len(),
    decreases tokens.len(),
{
    if Shape::Dash.leads(tokens) && tokens.len() > 1 && tokens[1] is Identifier {
        name_tail_within(tokens.skip(2));
    }
}

/// The scan of a name consumes no more tokens than there are, and a whole
/// name has a first segment: the identifier that the tokens begin with.
pub proof fn attribute_name_within(tokens: Seq<Lexeme>)
    ensures
        attribute_name(tokens).length <= tokens.len(),
        attribute_name(tokens).complete ==> attribute_name(tokens).segments.len() > 0
            && tokens.len() > 0 && tokens[0] == Lexeme::Identifier(
            attribute_name(tokens).segments[0],
        ),
{
    if Shape::Identifier.leads(tokens) {
        name_tail_within(tokens.skip(1));
    }
}

/// The segments joined by dashes: the key by which an attribute is looked up.
pub open spec fn dashed(segments: Seq<Seq<char>>) -> Seq<char>
    decreases segments.len(),
{
    if segments.len() == 0 {
        Seq::empty()
    } else if segments.len() == 1 {
        segments[0]
    } else {
        dashed(segments.drop_last()) + seq!['-'] + segments.last()
    }
}

/// The message of the diagnostic for an unknown directive.
pub open spec fn unknown_directive(name: Seq<char>) -> Seq<char> {
    "unknown directive `"@ + name + "`"@
}

/// What a parse makes of a sequence of tokens.
pub struct Parsed<T> {
    /// The node, or why there is none.
    pub result: Result<T, Failure>,
    /// The number of tokens that were consumed.
    pub length: nat,
}

/// What follows the colon of the directive `on:` or `bind:`. `rest` begins
/// after the colon, and `length` tokens were consumed up to there.
pub open spec fn directive_target(rest: Seq<Lexeme>, length: nat) -> Parsed<Seq<char>> {
    if Shape::Identifier.leads(rest) {
        Parsed { result: Ok(rest[0]->Identifier_0), length: length + 1 }
    } else {
        Parsed { result: Err(Failure::MalformedAttributeName), length }
    }
}

/// The attribute that `tokens` begin with. The first of these that applies
/// decides:
///
/// 1. no attribute name can be read: the parse fails;
/// 2. the name is `ref`;
/// 3. the name is `dangerously_set_inner_html`;
/// 4. a colon follows the name: the colon is consumed, and the name must be
///    `on` or `bind` and an identifier must follow;
/// 5. the policy holds the name to be a boolean attribute;
/// 6. the attribute has a string value.
pub open spec fn attribute_type<P: BooleanPolicy>(tokens: Seq<Lexeme>, policy: &P) -> Parsed<
    AttributeTypeView,
> {
    let name = attribute_name(tokens);
    let key = dashed(name.segments);
    let rest = tokens.skip(name.length as int);
    if !name.complete {
        Parsed { result: Err(Failure::MalformedAttributeName), length: name.length }
    } else if key == "ref"@ {
        Parsed { result: Ok(AttributeTypeView::Ref), length: name.length }
    } else if key == "dangerously_set_inner_html"@ {
        Parsed { result: Ok(AttributeTypeView::DangerouslySetInnerHtml), length: name.length }
    } else if Shape::Colon.leads(rest) {
        let target = directive_target(rest.skip(1), name.length + 1);
        if key == "on"@ {
            Parsed {
                result: match target.result {
                    Ok(event) => Ok(AttributeTypeView::Event { event }),
                    Err(failure) => Err(failure),
                },
                length: target.length,
            }
        } else if key == "bind"@ {
            Parsed {
                result: match target.result {
                    Ok(prop) => Ok(AttributeTypeView::Bind { prop }),
                    Err(failure) => Err(failure),
                },
                length: target.length,
            }
        } else {
            Parsed {
                result: Err(Failure::UnknownDirective { name: key }),
                length: name.length + 1,
            }
        }
    } else if policy.holds(key) {
        Parsed { result: Ok(AttributeTypeView::Bool { name: key }), length: name.length }
    } else {
        Parsed { result: Ok(AttributeTypeView::Str { name: key }), length: name.length }
    }
}

} // verus!
