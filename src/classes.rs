use vstd::prelude::*;

verus! {

#[verifier::external_type_specification]
#[verifier::external_body]
pub struct ExClasses(yew::Classes);

/// The class tokens that a class set holds, in the order in which each was
/// first added.
pub uninterp spec fn class_tokens(c: yew::Classes) -> Seq<Seq<char>>;

/// The tokens that a class string splits into at white space.
pub uninterp spec fn class_words(s: Seq<char>) -> Seq<Seq<char>>;

/// A character with the Unicode White_Space property.
pub open spec fn is_space(c: char) -> bool {
    ('\u{9}' <= c && c <= '\u{d}') || c == ' ' || c == '\u{85}' || c == '\u{a0}' || c
        == '\u{1680}' || ('\u{2000}' <= c && c <= '\u{200a}') || c == '\u{2028}' || c
        == '\u{2029}' || c == '\u{202f}' || c == '\u{205f}' || c == '\u{3000}'
}

/// A single class token: not empty, and without white space.
pub open spec fn is_token(s: Seq<char>) -> bool {
    s.len() > 0 && forall|i: int| 0 <= i < s.len() ==> !is_space(#[trigger] s[i])
}

/// The tokens after adding `t`: a token already present keeps its place.
pub open spec fn add_token(s: Seq<Seq<char>>, t: Seq<char>) -> Seq<Seq<char>> {
    if s.contains(t) {
        s
    } else {
        s.push(t)
    }
}

/// The tokens after adding each of `ts` in turn.
pub open spec fn add_tokens(s: Seq<Seq<char>>, ts: Seq<Seq<char>>) -> Seq<Seq<char>>
    decreases ts.len(),
{
    if ts.len() == 0 {
        s
    } else {
        add_token(add_tokens(s, ts.drop_last()), ts.last())
    }
}

/// The fixed class tokens of the button and page styles are single tokens.
pub(crate) proof fn lemma_style_tokens()
    ensures
        is_token("pf-c-button"@),
        is_token("pf-c-button__icon"@),
        is_token("pf-m-start"@),
        is_token("pf-m-end"@),
        is_token("pf-m-expanded"@),
        is_token("pf-m-primary"@),
        is_token("pf-m-secondary"@),
        is_token("pf-m-tertiary"@),
        is_token("pf-m-warning"@),
        is_token("pf-m-danger"@),
        is_token("pf-m-link"@),
        is_token("pf-m-inline"@),
        is_token("pf-m-control"@),
        is_token("pf-m-plain"@),
{
    reveal_strlit("pf-c-button");
    reveal_strlit("pf-c-button__icon");
    reveal_strlit("pf-m-start");
    reveal_strlit("pf-m-end");
    reveal_strlit("pf-m-expanded");
    reveal_strlit("pf-m-primary");
    reveal_strlit("pf-m-secondary");
    reveal_strlit("pf-m-tertiary");
    reveal_strlit("pf-m-warning");
    reveal_strlit("pf-m-danger");
    reveal_strlit("pf-m-link");
    reveal_strlit("pf-m-inline");
    reveal_strlit("pf-m-control");
    reveal_strlit("pf-m-plain");
}

/// Relies on yew's `From<&str> for Classes`: the set of the words of `s`;
/// a single token gives a set of that token alone.
#[verifier::external_body]
pub(crate) fn classes_from(s: &str) -> (r: yew::Classes)
    ensures
        class_tokens(r) == class_words(s@),
        is_token(s@) ==> class_tokens(r) == seq![s@],
{
    yew::Classes::from(s)
}

/// Relies on yew's `Classes::push`: adds each word of `s` that the set does
/// not hold yet, after the others.
#[verifier::external_body]
pub(crate) fn push_class(c: &mut yew::Classes, s: &str)
    ensures
        class_tokens(*final(c)) == add_tokens(class_tokens(*old(c)), class_words(s@)),
        is_token(s@) ==> class_tokens(*final(c)) == add_token(class_tokens(*old(c)), s@),
{
    c.push(s)
}

} // verus!
