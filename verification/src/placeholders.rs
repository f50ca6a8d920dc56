//! Placeholder substitution in document templates.
//!
//! Templates carry tokens written between triple angle brackets. Scaffolding
//! replaces every occurrence of such a token with a project- or data-source
//! name, scanning left to right and never revisiting replaced text, which is
//! the behaviour of a plain find-and-replace-all.

use vstd::prelude::*;
use vstd::string::StrSliceExecFns;
use vstd::string::StringExecFns;

verus! {

/// `token` stands in `text` at character position `i`.
pub open spec fn matches_at(text: Seq<char>, token: Seq<char>, i: int) -> bool {
    &&& 0 <= i
    &&& i + token.len() <= text.len()
    &&& text.subrange(i, i + token.len() as int) == token
}

/// `token` occurs somewhere in `text`.
pub open spec fn occurs(text: Seq<char>, token: Seq<char>) -> bool {
    exists|i: int| #[trigger] matches_at(text, token, i)
}

/// `text` with every occurrence of `token` replaced by `value`: occurrences
/// are found left to right, and replaced text is not scanned again.
/// An empty token is never substituted.
pub open spec fn substituted(text: Seq<char>, token: Seq<char>, value: Seq<char>) -> Seq<char>
    decreases text.len(),
{
    if token.len() == 0 || text.len() == 0 {
        text
    } else if matches_at(text, token, 0) {
        value + substituted(text.skip(token.len() as int), token, value)
    } else {
        seq![text[0]] + substituted(text.skip(1), token, value)
    }
}

/// A match of `token` inside `text` starting at `i` is the same thing as a
/// match at the front of `text.skip(i)`.
proof fn lemma_match_shift(text: Seq<char>, token: Seq<char>, i: int)
    requires
        0 <= i <= text.len(),
    ensures
        matches_at(text, token, i) == matches_at(text.skip(i), token, 0),
{
    if i + token.len() <= text.len() {
        assert(text.skip(i).subrange(0, token.len() as int) =~= text.subrange(
            i,
            i + token.len() as int,
        ));
    }
}

/// Unfolds `substituted` at a position where the token matches.
proof fn lemma_substituted_step_match(
    text: Seq<char>,
    token: Seq<char>,
    value: Seq<char>,
    i: int,
)
    requires
        token.len() > 0,
        matches_at(text, token, i),
    ensures
        substituted(text.skip(i), token, value) == value + substituted(
            text.skip(i + token.len() as int),
            token,
            value,
        ),
{
    let s = text.skip(i);
    lemma_match_shift(text, token, i);
    assert(s.skip(token.len() as int) =~= text.skip(i + token.len() as int));
}

/// Unfolds `substituted` at a position where the token does not match.
proof fn lemma_substituted_step_char(
    text: Seq<char>,
    token: Seq<char>,
    value: Seq<char>,
    i: int,
)
    requires
        token.len() > 0,
        0 <= i < text.len(),
        !matches_at(text, token, i),
    ensures
        substituted(text.skip(i), token, value) == seq![text[i]] + substituted(
            text.skip(i + 1),
            token,
            value,
        ),
{
    let s = text.skip(i);
    lemma_match_shift(text, token, i);
    assert(s[0] == text[i]);
    assert(s.skip(1) =~= text.skip(i + 1));
}

/// Substituting a token that does not occur in a text leaves the text
/// unchanged.
pub proof fn lemma_substituted_absent(text: Seq<char>, token: Seq<char>, value: Seq<char>)
    requires
        token.len() > 0,
        !occurs(text, token),
    ensures
        substituted(text, token, value) == text,
    decreases text.len(),
{
    if text.len() == 0 {
    } else {
        assert(!matches_at(text, token, 0));
        assert forall|i: int| !(#[trigger] matches_at(text.skip(1), token, i)) by {
            if matches_at(text.skip(1), token, i) {
                lemma_match_shift(text.skip(1), token, i);
                assert(text.skip(1).skip(i) =~= text.skip(i + 1));
                lemma_match_shift(text, token, i + 1);
                assert(matches_at(text, token, i + 1));
            }
        }
        lemma_substituted_absent(text.skip(1), token, value);
        assert(seq![text[0]] + text.skip(1) =~= text);
    }
}

/// Decides whether `token` stands in `text` at character position `i`.
fn token_matches_at(text: &str, text_len: usize, token: &str, token_len: usize, i: usize) -> (r:
    bool)
    requires
        text_len == text@.len(),
        token_len == token@.len(),
        token_len > 0,
        i <= text_len,
    ensures
        r == matches_at(text@, token@, i as int),
{
    if token_len > text_len - i {
        return false;
    }
    let mut j: usize = 0;
    while j < token_len
        invariant
            0 <= j <= token_len,
            text_len == text@.len(),
            token_len == token@.len(),
            i + token_len <= text_len,
            forall|k: int| 0 <= k < j ==> text@[i + k] == token@[k],
        decreases token_len - j,
    {
        if text.get_char(i + j) != token.get_char(j) {
            proof {
                if matches_at(text@, token@, i as int) {
                    assert(text@.subrange(i as int, i + token@.len() as int)[j as int]
                        == token@[j as int]);
                }
            }
            return false;
        }
        j = j + 1;
    }
    proof {
        assert(text@.subrange(i as int, i + token@.len() as int) =~= token@);
    }
    true
}

/// Replaces every occurrence of `token` in `text` with `value`, scanning left
/// to right.
pub fn replace_all(text: &str, token: &str, value: &str) -> (r: String)
    requires
        token@.len() > 0,
    ensures
        r@ == substituted(text@, token@, value@),
{
    let text_len = text.unicode_len();
    let token_len = token.unicode_len();
    let mut out = String::new();
    let mut i: usize = 0;
    proof {
        assert(text@.skip(0) =~= text@);
    }
    while i < text_len
        invariant
            0 <= i <= text_len,
            text_len == text@.len(),
            token_len == token@.len(),
            token_len > 0,
            substituted(text@, token@, value@) == out@ + substituted(
                text@.skip(i as int),
                token@,
                value@,
            ),
        decreases text_len - i,
    {
        if token_matches_at(text, text_len, token, token_len, i) {
            out.append(value);
            proof {
                lemma_substituted_step_match(text@, token@, value@, i as int);
            }
            i = i + token_len;
        } else {
            let piece = text.substring_char(i, i + 1);
            out.append(piece);
            proof {
                lemma_substituted_step_char(text@, token@, value@, i as int);
                assert(piece@ =~= seq![text@[i as int]]);
            }
            i = i + 1;
        }
    }
    proof {
        assert(text@.skip(i as int) =~= Seq::<char>::empty());
    }
    out
}

} // verus!
