use syn::parse::{ParseStream, Parser};
use view_syntax::parser::AttributeName;
use view_syntax::policy::BooleanAttributes;
use view_syntax::stream::StreamCursor;
use view_syntax::{AttributeType, ElementTag, ParseError, Shape, TokenCursor};

/// Runs `parse` on the tokens of `source`, finishes the cursor, and returns
/// the result with the source text of the tokens that the stream then holds.
fn run<T>(source: &str, parse: fn(&mut StreamCursor) -> T) -> (T, String) {
    let parser = |stream: ParseStream| -> syn::Result<(T, String)> {
        let mut cursor = StreamCursor::new(stream);
        let parsed = parse(&mut cursor);
        cursor.finish();
        let rest: proc_macro2::TokenStream = stream.parse()?;
        Ok((parsed, rest.to_string()))
    };
    parser.parse_str(source).unwrap()
}

fn policy() -> BooleanAttributes {
    BooleanAttributes::new(vec!["checked".to_string(), "disabled".to_string()])
}

fn element(source: &str) -> (Result<ElementTag, ParseError<String>>, String) {
    let (parsed, rest) = run(source, |cursor| ElementTag::parse(cursor));
    (parsed.map_err(text), rest)
}

fn attribute(source: &str) -> (Result<AttributeType, ParseError<String>>, String) {
    let (parsed, rest) = run(source, |cursor| AttributeType::parse(cursor, &policy()));
    (parsed.map_err(text), rest)
}

/// The error with the text of its diagnostic in place of the diagnostic.
fn text(error: ParseError<syn::Error>) -> ParseError<String> {
    match error {
        ParseError::MissingElement(e) => ParseError::MissingElement(e.to_string()),
        ParseError::MalformedAttributeName(e) => ParseError::MalformedAttributeName(e.to_string()),
        ParseError::UnknownDirective { name, diagnostic } => {
            ParseError::UnknownDirective { name, diagnostic: diagnostic.to_string() }
        }
    }
}

fn ok<T>(value: T, rest: &str) -> (Result<T, ParseError<String>>, String) {
    (Ok(value), rest.to_string())
}

#[test]
fn stream_identifier_is_builtin_element() {
    assert_eq!(element("div"), ok(ElementTag::Builtin("div".to_string()), ""));
    assert_eq!(element("div { }"), ok(ElementTag::Builtin("div".to_string()), "{ }"));
}

#[test]
fn stream_keyword_is_builtin_element() {
    for keyword in ["main", "type", "for", "self", "true", "struct"] {
        assert_eq!(element(keyword), ok(ElementTag::Builtin(keyword.to_string()), ""));
    }
}

#[test]
fn stream_string_literal_is_custom_element() {
    assert_eq!(element("\"my-element\""), ok(ElementTag::Custom("my-element".to_string()), ""));
    assert_eq!(element("\"a\" b"), ok(ElementTag::Custom("a".to_string()), "b"));
}

#[test]
fn stream_string_literal_is_decoded() {
    assert_eq!(element(r#""a\"b\n\u{41}""#), ok(ElementTag::Custom("a\"b\nA".to_string()), ""));
    assert_eq!(element(r###"r#"x"y"#"###), ok(ElementTag::Custom("x\"y".to_string()), ""));
    assert_eq!(element("\"\""), ok(ElementTag::Custom(String::new()), ""));
}

#[test]
fn stream_other_token_is_missing_element() {
    let missing = ParseError::MissingElement("expected an element".to_string());
    for source in ["123", "- a", ": a", "{ div }", "b\"bytes\"", "'a'", "1.5 x", "# div"] {
        let (parsed, rest) = element(source);
        assert_eq!(parsed, Err(missing.clone()));
        let written: proc_macro2::TokenStream = source.parse().unwrap();
        assert_eq!(rest, written.to_string());
    }
}

#[test]
fn stream_end_is_missing_element() {
    let missing = ParseError::MissingElement(
        "unexpected end of input, expected an element".to_string(),
    );
    assert_eq!(element(""), (Err(missing), String::new()));
}

#[test]
fn stream_dashed_name_round_trips() {
    for written in ["class", "data-foo", "aria-label", "a-b-c-d", "type-for-in", "x - y"] {
        let (key, rest) = run(written, |cursor| {
            AttributeName::parse(cursor).map(|name| name.key()).map_err(text)
        });
        let expected: String = written.split_whitespace().collect();
        assert_eq!(key, Ok(expected));
        assert_eq!(rest, "");
    }
}

#[test]
fn stream_name_keeps_its_identifiers() {
    let (segments, rest) = run("data-foo = 1", |cursor| {
        let name = AttributeName::parse(cursor).ok().unwrap();
        let extended: Vec<String> = name.extended.iter().map(|segment| segment.to_string()).collect();
        (name.tag.to_string(), extended)
    });
    assert_eq!(segments, ("data".to_string(), vec!["foo".to_string()]));
    assert_eq!(rest, "= 1");
}

#[test]
fn stream_malformed_names() {
    let refused = |message: &str| Err(ParseError::MalformedAttributeName(message.to_string()));
    assert_eq!(attribute("data-"), (refused("unexpected end of input, expected ident"), String::new()));
    assert_eq!(attribute("data-1"), (refused("expected ident"), "1".to_string()));
    assert_eq!(attribute("data--x"), (refused("expected ident"), "- x".to_string()));
    assert_eq!(attribute("-x"), (refused("expected ident"), "- x".to_string()));
    assert_eq!(attribute("\"ref\""), (refused("expected ident"), "\"ref\"".to_string()));
    assert_eq!(attribute(""), (refused("unexpected end of input, expected ident"), String::new()));
}

#[test]
fn stream_ref_and_inner_html() {
    assert_eq!(attribute("ref"), ok(AttributeType::Ref, ""));
    assert_eq!(attribute("ref = node"), ok(AttributeType::Ref, "= node"));
    assert_eq!(
        attribute("dangerously_set_inner_html = html"),
        ok(AttributeType::DangerouslySetInnerHtml, "= html")
    );
    assert_eq!(attribute("ref:x"), ok(AttributeType::Ref, ": x"));
}

#[test]
fn stream_directives() {
    assert_eq!(
        attribute("on:click"),
        ok(AttributeType::Event { event: "click".to_string() }, "")
    );
    assert_eq!(
        attribute("bind:value = signal"),
        ok(AttributeType::Bind { prop: "value".to_string() }, "= signal")
    );
    assert_eq!(attribute("on:type"), ok(AttributeType::Event { event: "type".to_string() }, ""));
    assert_eq!(
        attribute("on:key-down"),
        ok(AttributeType::Event { event: "key".to_string() }, "- down")
    );
}

#[test]
fn stream_unknown_directive_names_the_attribute() {
    let unknown = |name: &str| {
        Err(ParseError::UnknownDirective {
            name: name.to_string(),
            diagnostic: format!("unknown directive `{}`", name),
        })
    };
    assert_eq!(attribute("foo:bar"), (unknown("foo"), "bar".to_string()));
    assert_eq!(attribute("data-foo:bar"), (unknown("data-foo"), "bar".to_string()));
    assert_eq!(attribute("checked:"), (unknown("checked"), String::new()));
}

#[test]
fn stream_unknown_directive_points_at_first_identifier() {
    let (parsed, _) = run("  class foo-x:bar", |cursor| {
        let first = AttributeType::parse(cursor, &policy());
        assert_eq!(first.ok(), Some(AttributeType::Str { name: "class".to_string() }));
        AttributeType::parse(cursor, &policy())
    });
    let span = parsed.err().unwrap().into_diagnostic().span();
    assert_eq!(format!("{:?}", span), format!("{:?}", leading_span("  class foo-x:bar", 1)));
}

/// The span of the token at `index` among the tokens of `source`.
fn leading_span(source: &str, index: usize) -> proc_macro2::Span {
    let spans = |stream: ParseStream| -> syn::Result<Vec<proc_macro2::Span>> {
        let mut spans = Vec::new();
        while !stream.is_empty() {
            spans.push(stream.parse::<proc_macro2::TokenTree>()?.span());
        }
        Ok(spans)
    };
    spans.parse_str(source).unwrap()[index]
}

#[test]
fn stream_directive_without_target() {
    let refused = |message: &str| Err(ParseError::MalformedAttributeName(message.to_string()));
    assert_eq!(attribute("on:"), (refused("unexpected end of input, expected ident"), String::new()));
    assert_eq!(attribute("on:1"), (refused("expected ident"), "1".to_string()));
    assert_eq!(attribute("bind::value"), (refused("expected ident"), ": value".to_string()));
}

#[test]
fn stream_plain_attributes_follow_the_policy() {
    assert_eq!(attribute("checked"), ok(AttributeType::Bool { name: "checked".to_string() }, ""));
    assert_eq!(
        attribute("data-foo = \"x\""),
        ok(AttributeType::Str { name: "data-foo".to_string() }, "= \"x\"")
    );
    assert_eq!(attribute("class"), ok(AttributeType::Str { name: "class".to_string() }, ""));
    assert_eq!(attribute("on"), ok(AttributeType::Str { name: "on".to_string() }, ""));
}

#[test]
fn stream_dash_before_another_character_ends_no_name() {
    let refused = Err(ParseError::MalformedAttributeName("expected ident".to_string()));
    assert_eq!(attribute("a->b"), (refused.clone(), "> b".to_string()));
    assert_eq!(attribute("a-=b"), (refused, "= b".to_string()));
}

#[test]
fn stream_peek_and_take_agree() {
    let (seen, rest) = run("a \"b\" - : 7", |cursor| {
        let mut seen = Vec::new();
        seen.push(cursor.peek(Shape::Identifier) && !cursor.peek(Shape::Literal));
        seen.push(cursor.take_identifier().is_ok());
        seen.push(cursor.peek(Shape::Literal) && !cursor.peek(Shape::Identifier));
        seen.push(cursor.take_literal().ok() == Some("b".to_string()));
        seen.push(cursor.peek(Shape::Dash) && !cursor.peek(Shape::Colon));
        seen.push(cursor.take_dash().is_ok());
        seen.push(cursor.peek(Shape::Colon) && !cursor.peek(Shape::Dash));
        seen.push(cursor.take_colon().is_ok());
        seen.push(!cursor.peek(Shape::Identifier) && !cursor.peek(Shape::Literal));
        seen.push(cursor.take_identifier().is_err() && cursor.take_dash().is_err());
        seen.push(cursor.take_colon().is_err());
        seen
    });
    assert_eq!(seen, vec![true; 11]);
    assert_eq!(rest, "7");
}

#[test]
fn stream_errors_say_what_they_are_given() {
    let (messages, _) = run("a b", |cursor| {
        let here = cursor.error("here").to_string();
        let first = cursor.take_identifier().ok().unwrap();
        let spelled = StreamCursor::text(&first);
        let about = StreamCursor::error_at(&first, "about a").to_string();
        (here, spelled, about)
    });
    assert_eq!(messages, ("here".to_string(), "a".to_string(), "about a".to_string()));
}

#[test]
fn stream_parse_is_repeatable() {
    for source in ["ref", "on:click", "foo:bar", "data-foo", "checked", "a-", "\"x\""] {
        assert_eq!(attribute(source), attribute(source));
        assert_eq!(element(source), element(source));
    }
}

/// Parses with a cursor of its own and finishes the cursor.
fn step<T>(stream: ParseStream, parse: fn(&mut StreamCursor) -> T) -> T {
    let mut cursor = StreamCursor::new(stream);
    let parsed = parse(&mut cursor);
    cursor.finish();
    parsed
}

/// The source text of the tokens that the stream holds, which are consumed.
fn rest(stream: ParseStream) -> String {
    stream.parse::<proc_macro2::TokenStream>().unwrap().to_string()
}

#[test]
fn stream_second_cursor_starts_where_the_first_ended() {
    let parser = |stream: ParseStream| -> syn::Result<String> {
        let tag = step(stream, |cursor| ElementTag::parse(cursor));
        assert_eq!(tag.ok(), Some(ElementTag::Builtin("div".to_string())));
        let event = step(stream, |cursor| AttributeType::parse(cursor, &policy()));
        assert_eq!(event.ok(), Some(AttributeType::Event { event: "click".to_string() }));
        let plain = step(stream, |cursor| AttributeType::parse(cursor, &policy()));
        assert_eq!(plain.ok(), Some(AttributeType::Str { name: "data-foo".to_string() }));
        Ok(rest(stream))
    };
    assert_eq!(parser.parse_str("div on:click data-foo = 1").unwrap(), "= 1");
}

#[test]
fn stream_second_cursor_sees_what_the_first_left() {
    let parser = |stream: ParseStream| -> syn::Result<(bool, bool, String)> {
        let first = step(stream, |cursor| cursor.take_identifier().is_ok());
        let second = step(stream, |cursor| {
            cursor.peek(Shape::Identifier) || cursor.take_identifier().is_ok()
        });
        Ok((first, second, rest(stream)))
    };
    assert_eq!(parser.parse_str("a 1").unwrap(), (true, false, "1".to_string()));
}

#[test]
fn stream_cursor_after_a_failure_starts_where_the_stream_stands() {
    let parser = |stream: ParseStream| -> syn::Result<String> {
        let refused = step(stream, |cursor| AttributeType::parse(cursor, &policy()));
        assert!(matches!(refused, Err(ParseError::UnknownDirective { .. })));
        let tag = step(stream, |cursor| ElementTag::parse(cursor));
        assert_eq!(tag.ok(), Some(ElementTag::Builtin("bar".to_string())));
        Ok(rest(stream))
    };
    assert_eq!(parser.parse_str("foo:bar baz").unwrap(), "baz");
}

#[test]
fn stream_cursors_of_one_stream_do_not_move_each_other() {
    let parser = |stream: ParseStream| -> syn::Result<String> {
        let mut first = StreamCursor::new(stream);
        let second = StreamCursor::new(stream);
        assert!(second.peek(Shape::Identifier));
        assert!(first.take_identifier().is_ok());
        assert!(!first.peek(Shape::Identifier));
        assert!(second.peek(Shape::Identifier));
        first.finish();
        assert!(second.peek(Shape::Identifier));
        let mut third = StreamCursor::new(stream);
        assert!(!third.peek(Shape::Identifier));
        assert!(third.take_identifier().is_err());
        Ok(rest(stream))
    };
    assert_eq!(parser.parse_str("a 1").unwrap(), "1");
}

#[test]
fn stream_stays_until_the_cursor_is_finished() {
    let parser = |stream: ParseStream| -> syn::Result<String> {
        {
            let mut dropped = StreamCursor::new(stream);
            assert!(AttributeType::parse(&mut dropped, &policy()).is_ok());
        }
        let mut cursor = StreamCursor::new(stream);
        let again = AttributeType::parse(&mut cursor, &policy());
        assert_eq!(again.ok(), Some(AttributeType::Event { event: "click".to_string() }));
        let before = stream.fork().parse::<proc_macro2::TokenStream>()?.to_string();
        assert_eq!(before, "on : click x");
        cursor.finish();
        Ok(rest(stream))
    };
    assert_eq!(parser.parse_str("on:click x").unwrap(), "x");
}

#[test]
fn stream_finish_goes_where_the_cursor_stands() {
    let parser = |stream: ParseStream| -> syn::Result<String> {
        let mut far = StreamCursor::new(stream);
        let mut near = StreamCursor::new(stream);
        assert!(far.take_identifier().is_ok() && far.take_identifier().is_ok());
        assert!(near.take_identifier().is_ok());
        far.finish();
        near.finish();
        Ok(rest(stream))
    };
    assert_eq!(parser.parse_str("a b c").unwrap(), "b c");
}

#[test]
fn stream_refused_take_leaves_the_cursor() {
    let (messages, rest) = run("7 a", |cursor| {
        let literal = cursor.take_literal().err().map(|error| error.to_string());
        let dash = cursor.take_dash().err().map(|error| error.to_string());
        let colon = cursor.take_colon().err().map(|error| error.to_string());
        let identifier = cursor.take_identifier().err().map(|error| error.to_string());
        (literal, dash, colon, identifier)
    });
    assert_eq!(
        messages,
        (
            Some("expected string literal".to_string()),
            Some("expected `-`".to_string()),
            Some("expected `:`".to_string()),
            Some("expected ident".to_string()),
        )
    );
    assert_eq!(rest, "7 a");
}
