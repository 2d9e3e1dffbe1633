//! Character-level facts about text: whitespace, the forbidden characters of
//! a name, and the number of user-perceived characters.
use vstd::prelude::*;
use unicode_segmentation::UnicodeSegmentation;

verus! {

/// Whether `c` has the Unicode `White_Space` property, the set that
/// `char::is_whitespace` and `str::trim` go by.
pub open spec fn is_white_space(c: char) -> bool {
    ('\u{9}' <= c && c <= '\u{d}')
    || c == ' '
    || c == '\u{85}'
    || c == '\u{a0}'
    || c == '\u{1680}'
    || ('\u{2000}' <= c && c <= '\u{200a}')
    || c == '\u{2028}'
    || c == '\u{2029}'
    || c == '\u{202f}'
    || c == '\u{205f}'
    || c == '\u{3000}'
}

/// A text that trims down to nothing: every character is whitespace
/// (the empty text included).
pub open spec fn is_blank(s: Seq<char>) -> bool {
    forall|i: int| 0 <= i < s.len() ==> is_white_space(#[trigger] s[i])
}

/// The characters that may not appear anywhere in a subscriber name.
pub open spec fn forbidden_chars() -> Seq<char> {
    seq!['/', '(', ')', '"', '<', '>', '\\', '{', '}']
}

/// Whether `c` is one of `forbidden_chars()`.
pub open spec fn is_forbidden(c: char) -> bool {
    c == '/' || c == '(' || c == ')' || c == '"' || c == '<' || c == '>' || c == '\\'
        || c == '{' || c == '}'
}

/// Whether some character of `s` is forbidden.
pub open spec fn has_forbidden(s: Seq<char>) -> bool {
    exists|i: int| 0 <= i < s.len() && is_forbidden(#[trigger] s[i])
}

/// The number of extended grapheme clusters of a text, as Unicode's text
/// segmentation rules (UAX #29) count them.
pub uninterp spec fn grapheme_count(s: Seq<char>) -> nat;

/// Relies on unicode_segmentation's `graphemes(true)` iterator: it splits the
/// text into extended grapheme clusters, each a non-empty run of characters,
/// which together make up the whole text; the count is a function of the
/// text alone.
#[verifier::external_body]
pub(crate) fn count_graphemes(s: &str) -> (r: usize)
    ensures
        r as nat == grapheme_count(s@),
        r <= s@.len(),
        (r == 0) == (s@.len() == 0),
{
    s.graphemes(true).count()
}

/// Whether `c` is whitespace in the sense of `char::is_whitespace`.
pub fn is_whitespace_char(c: char) -> (r: bool)
    ensures
        r == is_white_space(c),
{
    ('\u{9}' <= c && c <= '\u{d}')
    || c == ' '
    || c == '\u{85}'
    || c == '\u{a0}'
    || c == '\u{1680}'
    || ('\u{2000}' <= c && c <= '\u{200a}')
    || c == '\u{2028}'
    || c == '\u{2029}'
    || c == '\u{202f}'
    || c == '\u{205f}'
    || c == '\u{3000}'
}

/// `is_forbidden` is membership in the table `forbidden_chars()`.
pub proof fn lemma_forbidden_is_table_member(c: char)
    ensures
        is_forbidden(c) == forbidden_chars().contains(c),
{
    let f = forbidden_chars();
    if is_forbidden(c) {
        if c == '/' { assert(f[0] == c); }
        else if c == '(' { assert(f[1] == c); }
        else if c == ')' { assert(f[2] == c); }
        else if c == '"' { assert(f[3] == c); }
        else if c == '<' { assert(f[4] == c); }
        else if c == '>' { assert(f[5] == c); }
        else if c == '\\' { assert(f[6] == c); }
        else if c == '{' { assert(f[7] == c); }
        else { assert(f[8] == c); }
    } else {
        assert forall|i: int| 0 <= i < f.len() implies f[i] != c by {}
    }
}

/// Whether `c` may not appear in a subscriber name.
pub fn is_forbidden_char(c: char) -> (r: bool)
    ensures
        r == is_forbidden(c),
        r == forbidden_chars().contains(c),
{
    proof {
        lemma_forbidden_is_table_member(c);
    }
    c == '/' || c == '(' || c == ')' || c == '"' || c == '<' || c == '>' || c == '\\'
        || c == '{' || c == '}'
}

/// The forbidden characters of a name, as a table.
pub fn forbidden_characters() -> (r: Vec<char>)
    ensures
        r@ == forbidden_chars(),
{
    let r = vec!['/', '(', ')', '"', '<', '>', '\\', '{', '}'];
    assert(r@ =~= forbidden_chars());
    r
}

/// Whether every character of `s` is whitespace, that is whether
/// `s.trim()` is empty.
pub fn is_blank_str(s: &str) -> (r: bool)
    ensures
        r == is_blank(s@),
{
    let n = s.unicode_len();
    let mut i: usize = 0;
    while i < n
        invariant
            n == s@.len(),
            i <= n,
            forall|j: int| 0 <= j < i ==> is_white_space(#[trigger] s@[j]),
        decreases n - i,
    {
        if !is_whitespace_char(s.get_char(i)) {
            return false;
        }
        i = i + 1;
    }
    true
}

/// Whether some character of `s` is forbidden in a name.
pub fn has_forbidden_str(s: &str) -> (r: bool)
    ensures
        r == has_forbidden(s@),
{
    let n = s.unicode_len();
    let mut i: usize = 0;
    while i < n
        invariant
            n == s@.len(),
            i <= n,
            forall|j: int| 0 <= j < i ==> !is_forbidden(#[trigger] s@[j]),
        decreases n - i,
    {
        if is_forbidden_char(s.get_char(i)) {
            return true;
        }
        i = i + 1;
    }
    false
}

} // verus!
