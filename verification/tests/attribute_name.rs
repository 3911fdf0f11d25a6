use view_syntax::buffer::{BufferCursor, Diagnostic};
use view_syntax::parser::AttributeName;
use view_syntax::{ParseError, Shape, Token, TokenCursor};

fn identifier(spelling: &str) -> Token {
    Token::Identifier(spelling.to_string())
}

/// The tokens of `segments` with a dash between each two.
fn dashed_tokens(segments: &[&str]) -> Vec<Token> {
    let mut tokens = Vec::new();
    for (i, segment) in segments.iter().enumerate() {
        if i > 0 {
            tokens.push(Token::Dash);
        }
        tokens.push(identifier(segment));
    }
    tokens
}

fn refused(position: usize) -> ParseError<Diagnostic> {
    ParseError::MalformedAttributeName(Diagnostic {
        position,
        message: "expected identifier".to_string(),
    })
}

#[test]
fn single_segment_name() {
    let mut cursor = BufferCursor::new(vec![identifier("class")]);
    let name = AttributeName::parse(&mut cursor).unwrap();
    assert_eq!(name.tag.text, "class");
    assert_eq!(name.tag.position, 0);
    assert!(name.extended.is_empty());
    assert_eq!(name.key(), "class");
    assert_eq!(cursor.position(), 1);
}

#[test]
fn dashed_name_round_trips() {
    let cases: [&[&str]; 5] = [
        &["data", "foo"],
        &["aria", "label"],
        &["a", "b", "c", "d"],
        &["x"],
        &["type", "for", "in"],
    ];
    for segments in cases {
        let mut cursor = BufferCursor::new(dashed_tokens(segments));
        let name = AttributeName::parse(&mut cursor).unwrap();
        assert_eq!(name.key(), segments.join("-"));
        assert_eq!(name.extended.len(), segments.len() - 1);
        assert_eq!(cursor.position(), 2 * segments.len() - 1);
    }
}

#[test]
fn segments_keep_their_order_and_places() {
    let mut cursor = BufferCursor::new(dashed_tokens(&["b", "a", "c"]));
    let name = AttributeName::parse(&mut cursor).unwrap();
    assert_eq!(name.tag.text, "b");
    assert_eq!(name.extended[0].text, "a");
    assert_eq!(name.extended[0].position, 2);
    assert_eq!(name.extended[1].text, "c");
    assert_eq!(name.extended[1].position, 4);
    assert_eq!(name.key(), "b-a-c");
}

#[test]
fn name_ends_at_first_token_that_is_no_dash() {
    let mut tokens = dashed_tokens(&["data", "foo"]);
    tokens.push(Token::Colon);
    tokens.push(identifier("bar"));
    let mut cursor = BufferCursor::new(tokens);
    let name = AttributeName::parse(&mut cursor).unwrap();
    assert_eq!(name.key(), "data-foo");
    assert_eq!(cursor.position(), 3);
    assert!(cursor.peek(Shape::Colon));
}

#[test]
fn adjacent_identifiers_are_two_names() {
    let mut cursor = BufferCursor::new(vec![identifier("a"), identifier("b")]);
    assert_eq!(AttributeName::parse(&mut cursor).unwrap().key(), "a");
    assert_eq!(AttributeName::parse(&mut cursor).unwrap().key(), "b");
    assert_eq!(cursor.position(), 2);
}

#[test]
fn name_must_begin_with_identifier() {
    for token in [Token::Dash, Token::Colon, Token::Other, Token::Literal("a".to_string())] {
        let mut cursor = BufferCursor::new(vec![token, identifier("a")]);
        assert_eq!(AttributeName::parse(&mut cursor).err(), Some(refused(0)));
        assert_eq!(cursor.position(), 0);
    }
}

#[test]
fn empty_input_is_malformed_name() {
    let mut cursor = BufferCursor::new(Vec::new());
    assert_eq!(AttributeName::parse(&mut cursor).err(), Some(refused(0)));
}

#[test]
fn dash_must_be_followed_by_identifier() {
    let mut cursor = BufferCursor::new(vec![identifier("data"), Token::Dash, Token::Other]);
    assert_eq!(AttributeName::parse(&mut cursor).err(), Some(refused(2)));
    assert_eq!(cursor.position(), 2);
}

#[test]
fn trailing_dash_is_malformed_name() {
    let mut cursor = BufferCursor::new(vec![identifier("data"), Token::Dash]);
    assert_eq!(AttributeName::parse(&mut cursor).err(), Some(refused(2)));
    assert_eq!(cursor.position(), 2);
}

#[test]
fn double_dash_is_malformed_name() {
    let tokens = vec![
        identifier("a"),
        Token::Dash,
        identifier("b"),
        Token::Dash,
        Token::Dash,
        identifier("c"),
    ];
    let mut cursor = BufferCursor::new(tokens);
    assert_eq!(AttributeName::parse(&mut cursor).err(), Some(refused(4)));
    assert_eq!(cursor.position(), 4);
}

#[test]
fn spelling_with_a_dash_is_one_segment() {
    let mut cursor = BufferCursor::new(vec![identifier("a-b"), Token::Dash, identifier("c")]);
    let name = AttributeName::parse(&mut cursor).unwrap();
    assert_eq!(name.tag.text, "a-b");
    assert_eq!(name.extended.len(), 1);
    assert_eq!(name.key(), "a-b-c");
    assert_eq!(cursor.position(), 3);
}
