//! The typed nodes that the grammars produce, and the ways in which they fail.

use vstd::prelude::*;

verus! {

/// The tag of a template node.
#[derive(Clone, Debug, PartialEq, Eq)]
pub enum ElementTag {
    /// A standard element, named by a plain identifier.
    Builtin(String),
    /// A custom element, named by a string literal.
    Custom(String),
}

/// The model of an [`ElementTag`]: the same tag, with its name as a sequence
/// of characters.
pub enum ElementTagView {
    /// A standard element, with the spelling of its identifier.
    Builtin(Seq<char>),
    /// A custom element, with the text of its string literal.
    Custom(Seq<char>),
}

impl View for ElementTag {
    type V = ElementTagView;

    open spec fn view(&self) -> ElementTagView {
        match self {
            ElementTag::Builtin(name) => ElementTagView::Builtin(name@),
            ElementTag::Custom(name) => ElementTagView::Custom(name@),
        }
    }
}

/// What an attribute of a template node is.
#[derive(Clone, Debug, PartialEq, Eq)]
pub enum AttributeType {
    /// `ref`: captures a reference to the element.
    Ref,
    /// `dangerously_set_inner_html`: injects raw markup.
    DangerouslySetInnerHtml,
    /// `on:<event>`: binds a handler to an event.
    Event { event: String },
    /// `bind:<prop>`: keeps a value of the element and a signal in step.
    Bind { prop: String },
    /// A plain attribute whose presence alone carries its meaning.
    Bool { name: String },
    /// A plain attribute with a string value.
    Str { name: String },
}

/// The model of an [`AttributeType`]: the same attribute, with its texts as
/// sequences of characters.
pub enum AttributeTypeView {
    Ref,
    DangerouslySetInnerHtml,
    Event { event: Seq<char> },
    Bind { prop: Seq<char> },
    Bool { name: Seq<char> },
    Str { name: Seq<char> },
}

impl View for AttributeType {
    type V = AttributeTypeView;

    open spec fn view(&self) -> AttributeTypeView {
        match self {
            AttributeType::Ref => AttributeTypeView::Ref,
            AttributeType::DangerouslySetInnerHtml => AttributeTypeView::DangerouslySetInnerHtml,
            AttributeType::Event { event } => AttributeTypeView::Event { event: event@ },
            AttributeType::Bind { prop } => AttributeTypeView::Bind { prop: prop@ },
            AttributeType::Bool { name } => AttributeTypeView::Bool { name: name@ },
            AttributeType::Str { name } => AttributeTypeView::Str { name: name@ },
        }
    }
}

/// Why a parse failed, without the diagnostic.
pub enum Failure {
    /// Neither an identifier nor a string literal stands where an element tag
    /// was expected.
    MissingElement,
    /// An identifier is missing in the name of an attribute: at its start,
    /// after one of its dashes, or after the colon of `on:` or `bind:`.
    MalformedAttributeName,
    /// A name other than `on` and `bind` is followed by a colon.
    UnknownDirective { name: Seq<char> },
}

/// A failed parse. Every failure is final: nothing is retried, and no partial
/// node is produced. `D` is the cursor's type of diagnostics; the diagnostic
/// says where in the source the failure lies.
#[derive(Clone, Debug, PartialEq, Eq)]
pub enum ParseError<D> {
    /// Neither an identifier nor a string literal stands where an element tag
    /// was expected. The diagnostic is raised at that place.
    MissingElement(D),
    /// An identifier is missing in the name of an attribute: at its start,
    /// after one of its dashes, or after the colon of `on:` or `bind:`. The
    /// diagnostic is the one with which the cursor refused the token that
    /// stands there.
    MalformedAttributeName(D),
    /// A name other than `on` and `bind` is followed by a colon. The
    /// diagnostic points at the first identifier of the name.
    UnknownDirective { name: String, diagnostic: D },
}

impl<D> ParseError<D> {
    /// Why the parse failed.
    pub open spec fn failure(&self) -> Failure {
        match self {
            ParseError::MissingElement(_) => Failure::MissingElement,
            ParseError::MalformedAttributeName(_) => Failure::MalformedAttributeName,
            ParseError::UnknownDirective { name, .. } => Failure::UnknownDirective { name: name@ },
        }
    }

    /// The diagnostic that the error carries.
    pub open spec fn carried(&self) -> D {
        match self {
            ParseError::MissingElement(diagnostic) => *diagnostic,
            ParseError::MalformedAttributeName(diagnostic) => *diagnostic,
            ParseError::UnknownDirective { diagnostic, .. } => *diagnostic,
        }
    }

    /// Hands out the diagnostic.
    pub fn into_diagnostic(self) -> (diagnostic: D)
        ensures
            diagnostic == self.carried(),
    {
        match self {
            ParseError::MissingElement(diagnostic) => diagnostic,
            ParseError::MalformedAttributeName(diagnostic) => diagnostic,
            ParseError::UnknownDirective { diagnostic, .. } => diagnostic,
        }
    }
}

} // verus!
