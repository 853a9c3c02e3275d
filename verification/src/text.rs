//! The few operations on text that the library takes from the standard
//! library as they are.

use vstd::prelude::*;

verus! {

/// Whether a character is whitespace, as `char::is_whitespace` has it: the
/// characters with the Unicode property `White_Space`.
pub uninterp spec fn is_whitespace(c: char) -> bool;

/// `char::is_whitespace`, which depends on the character alone.
#[verifier::external_body]
pub(crate) fn char_is_whitespace(c: char) -> (white: bool)
    ensures
        white == is_whitespace(c),
{
    c.is_whitespace()
}

/// Equality of two texts, by `str::eq`: they are equal when they hold the
/// same characters.
#[verifier::external_body]
pub(crate) fn same_text(left: &str, right: &str) -> (same: bool)
    ensures
        same == (left@ == right@),
{
    left == right
}

/// `str::strip_prefix` with a text as the pattern: the rest of `text`
/// behind `prefix` where `text` begins with it, else `None`.
#[verifier::external_body]
pub(crate) fn strip_prefix<'a>(text: &'a str, prefix: &str) -> (rest: Option<&'a str>)
    ensures
        rest matches Some(tail) ==> text@ == prefix@ + tail@,
        rest is None ==> !prefix@.is_prefix_of(text@),
{
    text.strip_prefix(prefix)
}

/// Content that would be empty once surrounding whitespace is removed:
/// every character is whitespace.
pub open spec fn is_blank(text: Seq<char>) -> bool {
    forall|i: int| 0 <= i < text.len() ==> is_whitespace(#[trigger] text[i])
}

/// Whether `text` holds whitespace only.
pub fn blank(text: &str) -> (all_white: bool)
    ensures
        all_white == is_blank(text@),
{
    let mut all_white = true;
    for c in it: text.chars()
        invariant
            it.seq() == text@,
            all_white == is_blank(text@.take(it.index() as int)),
    {
        proof {
            let seen = text@.take(it.index() as int);
            let more = text@.take(it.index() as int + 1);
            assert(more =~= seen.push(c));
            assert(forall|i: int| 0 <= i < seen.len() ==> seen[i] == more[i]);
            assert(more[seen.len() as int] == c);
        }
        if !char_is_whitespace(c) {
            all_white = false;
        }
    }
    proof {
        assert(text@.take(text@.len() as int) =~= text@);
    }
    all_white
}

} // verus!
