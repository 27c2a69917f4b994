//! Small helpers on text, and on text that may be absent.

use vstd::prelude::*;

verus! {

/// The characters of a borrowed text that may be absent.
pub open spec fn text_of(text: Option<&str>) -> Option<Seq<char>> {
    match text {
        Some(t) => Some(t@),
        None => None,
    }
}

/// The characters of an owned text that may be absent.
pub open spec fn owned_text_of(text: Option<String>) -> Option<Seq<char>> {
    match text {
        Some(t) => Some(t@),
        None => None,
    }
}

/// `text` with `to` in the place of each `from`.
pub open spec fn replaced(text: Seq<char>, from: char, to: Seq<char>) -> Seq<char>
    decreases text.len(),
{
    if text.len() == 0 {
        Seq::empty()
    } else {
        replaced(text.drop_last(), from, to) + (if text.last() == from {
            to
        } else {
            seq![text.last()]
        })
    }
}

/// `str::replace` with a character for the pattern: the copy of `text` that it
/// returns has `to` in the place of every `from`, and the rest unchanged.
#[verifier::external_body]
pub(crate) fn replace_char(text: &str, from: char, to: &str) -> (r: String)
    ensures
        r@ == replaced(text@, from, to@),
{
    text.replace(from, to)
}

/// An owned copy of a text that may be absent.
pub(crate) fn to_owned_text(text: Option<&str>) -> (r: Option<String>)
    ensures
        owned_text_of(r) == text_of(text),
{
    match text {
        Some(t) => Some(t.to_owned()),
        None => None,
    }
}

/// Borrows a text that may be absent.
pub(crate) fn as_text(text: &Option<String>) -> (r: Option<&str>)
    ensures
        text_of(r) == owned_text_of(*text),
{
    match text {
        Some(t) => Some(t.as_str()),
        None => None,
    }
}

} // verus!
