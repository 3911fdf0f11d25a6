//! Laws of the grammars, proved of the functions in `grammar`, which are what
//! the parsers are verified to compute.

use vstd::prelude::*;
use crate::grammar::{
    attribute_name, attribute_name_within, attribute_type, dashed, directive_target, element_tag,
    name_tail, name_tail_within, NameScan,
};
use crate::policy::BooleanPolicy;
use crate::token::{Lexeme, Shape};

verus! {

/// The tokens that follow the first segment of a name whose further segments
/// are `segments`: a dash and an identifier for each.
pub open spec fn tail_tokens(segments: Seq<Seq<char>>) -> Seq<Lexeme>
    decreases segments.len(),
{
    if segments.len() == 0 {
        Seq::empty()
    } else {
        tail_tokens(segments.drop_last()) + seq![Lexeme::Dash, Lexeme::Identifier(segments.last())]
    }
}

/// The tokens of the name with the given segments: the segments as
/// identifiers, with a dash between each two.
pub open spec fn name_tokens(segments: Seq<Seq<char>>) -> Seq<Lexeme>
    recommends
        segments.len() > 0,
{
    seq![Lexeme::Identifier(segments[0])] + tail_tokens(segments.drop_first())
}

/// The text of a token of a name as it is written.
pub open spec fn written_token(token: Lexeme) -> Seq<char> {
    match token {
        Lexeme::Identifier(spelling) => spelling,
        Lexeme::Dash => seq!['-'],
        Lexeme::Colon => seq![':'],
        _ => Seq::empty(),
    }
}

/// The text of identifiers, dashes and colons as they are written, one after
/// the other without a gap.
pub open spec fn written(tokens: Seq<Lexeme>) -> Seq<char>
    decreases tokens.len(),
{
    if tokens.len() == 0 {
        Seq::empty()
    } else {
        written(tokens.drop_last()) + written_token(tokens.last())
    }
}

/// The token at index `i`, if there is one.
pub open spec fn token_at(tokens: Seq<Lexeme>, i: int) -> Option<Lexeme> {
    if 0 <= i < tokens.len() {
        Some(tokens[i])
    } else {
        None
    }
}

/// Whether `a` and `b` are the same as far as their first `n` tokens go: at
/// each index below `n` both hold the same token, or both have ended.
pub open spec fn same_front(a: Seq<Lexeme>, b: Seq<Lexeme>, n: nat) -> bool {
    forall|i: int| 0 <= i < n ==> #[trigger] token_at(a, i) == token_at(b, i)
}

proof fn tail_tokens_length(segments: Seq<Seq<char>>)
    ensures
        tail_tokens(segments).len() == 2 * segments.len(),
    decreases segments.len(),
{
    if segments.len() > 0 {
        tail_tokens_length(segments.drop_last());
    }
}

proof fn name_tail_of_tail_tokens(segments: Seq<Seq<char>>, rest: Seq<Lexeme>)
    ensures
        name_tail(tail_tokens(segments) + rest) == (NameScan {
            segments: segments + name_tail(rest).segments,
            length: 2 * segments.len() + name_tail(rest).length,
            complete: name_tail(rest).complete,
        }),
    decreases segments.len(),
{
    if segments.len() == 0 {
        assert(tail_tokens(segments) + rest =~= rest);
        assert(segments + name_tail(rest).segments =~= name_tail(rest).segments);
    } else {
        let front = segments.drop_last();
        let pair = seq![Lexeme::Dash, Lexeme::Identifier(segments.last())];
        let longer = pair + rest;
        name_tail_of_tail_tokens(front, longer);
        assert(tail_tokens(segments) + rest =~= tail_tokens(front) + longer);
        assert(longer.skip(2) =~= rest);
        assert(front + (seq![segments.last()] + name_tail(rest).segments) =~= segments + name_tail(
            rest,
        ).segments);
    }
}

proof fn written_tail_tokens(first: Seq<char>, segments: Seq<Seq<char>>)
    ensures
        written(seq![Lexeme::Identifier(first)] + tail_tokens(segments)) == dashed(
            seq![first] + segments,
        ),
    decreases segments.len(),
{
    let head = seq![Lexeme::Identifier(first)];
    if segments.len() == 0 {
        assert(head + tail_tokens(segments) =~= head);
        assert(head.drop_last() =~= Seq::<Lexeme>::empty());
        assert(written(Seq::<Lexeme>::empty()) =~= Seq::<char>::empty());
        assert(written(head) =~= first);
        assert(seq![first] + segments =~= seq![first]);
        assert(dashed(seq![first]) =~= first);
    } else {
        let front = segments.drop_last();
        let last = Lexeme::Identifier(segments.last());
        let tokens = head + tail_tokens(segments);
        written_tail_tokens(first, front);
        assert(tokens.drop_last() =~= (head + tail_tokens(front)).push(Lexeme::Dash));
        assert(tokens.drop_last().drop_last() =~= head + tail_tokens(front));
        assert(tokens.last() == last);
        assert(tokens.drop_last().last() == Lexeme::Dash);
        let whole = seq![first] + segments;
        assert(whole.drop_last() =~= seq![first] + front);
        assert(whole.last() == segments.last());
        assert(written(tokens.drop_last()) =~= written(head + tail_tokens(front)) + seq!['-']);
        assert(written(tokens) =~= written(tokens.drop_last()) + segments.last());
        assert(dashed(whole) =~= dashed(seq![first] + front) + seq!['-'] + segments.last());
    }
}

/// A name survives the round trip through its tokens: if the segments
/// `s0, s1, ..., sn` are written with a dash between each two, and no dash
/// follows, then the name grammar reads exactly those tokens and yields
/// exactly those segments, and the key, the segments joined by dashes, is the
/// text that was written.
pub proof fn name_round_trip(segments: Seq<Seq<char>>, rest: Seq<Lexeme>)
    requires
        segments.len() > 0,
        !Shape::Dash.leads(rest),
    ensures
        attribute_name(name_tokens(segments) + rest) == (NameScan {
            segments,
            length: name_tokens(segments).len(),
            complete: true,
        }),
        (name_tokens(segments) + rest).skip(name_tokens(segments).len() as int) == rest,
        dashed(segments) == written(name_tokens(segments)),
{
    let tail = segments.drop_first();
    let tokens = name_tokens(segments) + rest;
    tail_tokens_length(tail);
    name_tail_of_tail_tokens(tail, rest);
    written_tail_tokens(segments[0], tail);
    assert(tokens.skip(1) =~= tail_tokens(tail) + rest);
    assert(seq![segments[0]] + tail =~= segments);
    assert(tail + name_tail(rest).segments =~= tail);
    assert(tokens.skip(name_tokens(segments).len() as int) =~= rest);
}

proof fn name_tail_reads_front(a: Seq<Lexeme>, b: Seq<Lexeme>)
    requires
        same_front(a, b, name_tail(a).length + 1),
    ensures
        name_tail(b) == name_tail(a),
    decreases a.len(),
{
    if Shape::Dash.leads(a) && a.len() > 1 && a[1] is Identifier {
        assert(token_at(a, 0) == token_at(b, 0));
        assert(token_at(a, 1) == token_at(b, 1));
        assert forall|i: int| 0 <= i < name_tail(a.skip(2)).length + 1 implies #[trigger] token_at(
            a.skip(2),
            i,
        ) == token_at(b.skip(2), i) by {
            assert(token_at(a, i + 2) == token_at(b, i + 2));
        }
        name_tail_reads_front(a.skip(2), b.skip(2));
    }
}

proof fn attribute_name_reads_front(a: Seq<Lexeme>, b: Seq<Lexeme>)
    requires
        same_front(a, b, attribute_name(a).length + 1),
    ensures
        attribute_name(b) == attribute_name(a),
{
    if Shape::Identifier.leads(a) {
        assert(token_at(a, 0) == token_at(b, 0));
        assert forall|i: int| 0 <= i < name_tail(a.skip(1)).length + 1 implies #[trigger] token_at(
            a.skip(1),
            i,
        ) == token_at(b.skip(1), i) by {
            assert(token_at(a, i + 1) == token_at(b, i + 1));
        }
        name_tail_reads_front(a.skip(1), b.skip(1));
    }
}

/// The tag of an element depends on the next token alone: on two sequences
/// that begin with the same token, or are both empty, the result is the same.
/// So a parse that is run again on the same tokens gives the same tag.
pub proof fn element_tag_reads_front(a: Seq<Lexeme>, b: Seq<Lexeme>)
    requires
        same_front(a, b, 1),
    ensures
        element_tag(b) == element_tag(a),
{
    assert(token_at(a, 0) == token_at(b, 0));
}

/// An attribute depends on the tokens that its parse consumes and on the one
/// after them, and on nothing else: on two sequences that agree on those
/// tokens, the result and the number of tokens consumed are the same, under
/// the same policy. So a parse that is run again on the same tokens gives the
/// same attribute.
pub proof fn attribute_type_reads_front<P: BooleanPolicy>(
    a: Seq<Lexeme>,
    b: Seq<Lexeme>,
    policy: &P,
)
    requires
        same_front(a, b, attribute_type(a, policy).length + 1),
    ensures
        attribute_type(b, policy) == attribute_type(a, policy),
{
    let name = attribute_name(a);
    attribute_name_within(a);
    assert(attribute_type(a, policy).length >= name.length);
    attribute_name_reads_front(a, b);
    attribute_name_within(b);
    let key = dashed(name.segments);
    if name.complete && key != "ref"@ && key != "dangerously_set_inner_html"@ {
        let n = name.length as int;
        assert(token_at(a, n) == token_at(b, n));
        assert(Shape::Colon.leads(a.skip(n)) == Shape::Colon.leads(b.skip(n)));
        if Shape::Colon.leads(a.skip(n)) {
            assert(token_at(a, n + 1) == token_at(b, n + 1));
            assert(Shape::Identifier.leads(a.skip(n).skip(1)) ==> a.skip(n).skip(1)[0] == a[n + 1]);
            assert(Shape::Identifier.leads(b.skip(n).skip(1)) ==> b.skip(n).skip(1)[0] == b[n + 1]);
            assert(directive_target(a.skip(n).skip(1), name.length + 1) == directive_target(
                b.skip(n).skip(1),
                name.length + 1,
            ));
        }
    }
}

/// What an attribute is depends on its key, on whether a colon follows its
/// name and, behind a colon, on the token after it, and under one policy on
/// nothing else. A name is never read as anything but its key: names of
/// several segments and names of one are classified alike.
pub proof fn attribute_type_by_key<P: BooleanPolicy>(a: Seq<Lexeme>, b: Seq<Lexeme>, policy: &P)
    requires
        attribute_name(a).complete,
        attribute_name(b).complete,
        dashed(attribute_name(a).segments) == dashed(attribute_name(b).segments),
        ({
            let m = attribute_name(a).length as int;
            let n = attribute_name(b).length as int;
            &&& token_at(a, m) == Some(Lexeme::Colon) <==> token_at(b, n) == Some(Lexeme::Colon)
            &&& token_at(a, m + 1) == token_at(b, n + 1)
        }),
    ensures
        attribute_type(a, policy).result == attribute_type(b, policy).result,
{
    let m = attribute_name(a).length as int;
    let n = attribute_name(b).length as int;
    attribute_name_within(a);
    attribute_name_within(b);
    assert(Shape::Colon.leads(a.skip(m)) <==> token_at(a, m) == Some(Lexeme::Colon));
    assert(Shape::Colon.leads(b.skip(n)) <==> token_at(b, n) == Some(Lexeme::Colon));
    if Shape::Colon.leads(a.skip(m)) {
        assert(Shape::Identifier.leads(a.skip(m).skip(1)) ==> a.skip(m).skip(1)[0] == a[m + 1]);
        assert(Shape::Identifier.leads(b.skip(n).skip(1)) ==> b.skip(n).skip(1)[0] == b[n + 1]);
        assert(directive_target(a.skip(m).skip(1), (m + 1) as nat).result == directive_target(
            b.skip(n).skip(1),
            (n + 1) as nat,
        ).result);
    }
}

/// The number of dashes in a text.
pub open spec fn dashes(text: Seq<char>) -> nat
    decreases text.len(),
{
    if text.len() == 0 {
        0
    } else if text.last() == '-' {
        dashes(text.drop_last()) + 1
    } else {
        dashes(text.drop_last())
    }
}

proof fn dashes_of_joined(front: Seq<char>, back: Seq<char>)
    ensures
        dashes(front + back) == dashes(front) + dashes(back),
    decreases back.len(),
{
    if back.len() == 0 {
        assert(front + back =~= front);
    } else {
        dashes_of_joined(front, back.drop_last());
        assert((front + back).drop_last() =~= front + back.drop_last());
    }
}

proof fn dashes_of_dashed(segments: Seq<Seq<char>>)
    requires
        segments.len() > 0,
        forall|i: int| 0 <= i < segments.len() ==> dashes(#[trigger] segments[i]) == 0,
    ensures
        dashes(dashed(segments)) == segments.len() - 1,
    decreases segments.len(),
{
    if segments.len() > 1 {
        let front = segments.drop_last();
        assert forall|i: int| 0 <= i < front.len() implies dashes(#[trigger] front[i]) == 0 by {
            assert(front[i] == segments[i]);
        }
        dashes_of_dashed(front);
        dashes_of_joined(dashed(front), seq!['-']);
        dashes_of_joined(dashed(front) + seq!['-'], segments.last());
        assert(seq!['-'].drop_last() =~= Seq::<char>::empty());
        assert(dashes(Seq::<char>::empty()) == 0);
        assert(seq!['-'].last() == '-');
        assert(dashes(seq!['-']) == 1);
    }
}

proof fn name_tail_length(tokens: Seq<Lexeme>)
    requires
        name_tail(tokens).complete,
    ensures
        name_tail(tokens).length == 2 * name_tail(tokens).segments.len(),
    decreases tokens.len(),
{
    if Shape::Dash.leads(tokens) {
        name_tail_length(tokens.skip(2));
    }
}

/// Where no segment of a name is spelled with a dash, the key tells how the
/// name was written: it has one segment more than the key has dashes, and it
/// took one token for each segment and one for each dash. A cursor may hand
/// out an identifier that is spelled with a dash; of such a name the key does
/// not tell the segments apart.
pub proof fn name_length_by_key(tokens: Seq<Lexeme>)
    requires
        attribute_name(tokens).complete,
        forall|i: int|
            0 <= i < attribute_name(tokens).segments.len() ==> dashes(
                #[trigger] attribute_name(tokens).segments[i],
            ) == 0,
    ensures
        attribute_name(tokens).segments.len() == dashes(dashed(attribute_name(tokens).segments))
            + 1,
        attribute_name(tokens).length == 2 * dashes(dashed(attribute_name(tokens).segments)) + 1,
{
    name_tail_length(tokens.skip(1));
    dashes_of_dashed(attribute_name(tokens).segments);
}

} // verus!
