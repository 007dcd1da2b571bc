//! The two patterns the rule looks for in a normalized comment: the word
//! `todo` at its start, and a tag `todo(#issue)` or `todo(@username)` anywhere
//! in it.

use crate::text::white_space;
use regex::Regex;
use vstd::prelude::*;
use vstd::string::*;

verus! {

/// The word that makes a comment a `TODO` comment.
pub open spec fn todo_word() -> Seq<char> {
    seq!['t', 'o', 'd', 'o']
}

/// Whether `s` begins with the word `todo`.
pub open spec fn starts_with_todo(s: Seq<char>) -> bool {
    todo_word().is_prefix_of(s)
}

/// Whether a tag stands in `s` from `start` up to the bracket at `close`:
/// `todo(`, then `#` or `@`, then one or more characters that are no white
/// space, then `)`.
pub open spec fn tag_at(s: Seq<char>, start: int, close: int) -> bool {
    &&& 0 <= start
    &&& start + 6 < close < s.len()
    &&& s.subrange(start, start + 4) == todo_word()
    &&& s[start + 4] == '('
    &&& (s[start + 5] == '#' || s[start + 5] == '@')
    &&& forall|k: int| start + 6 <= k < close ==> !white_space(#[trigger] s[k])
    &&& s[close] == ')'
}

/// Whether a tag stands anywhere in `s`.
pub open spec fn has_tag(s: Seq<char>) -> bool {
    exists|start: int, close: int| tag_at(s, start, close)
}

/// The text of a tag with the given sign and token: `todo(`, the sign, the
/// token, `)`.
pub open spec fn tag_text(sign: char, token: Seq<char>) -> Seq<char> {
    todo_word() + seq!['(', sign] + token + seq![')']
}

/// The tag, written as a regular expression.
pub const TAG_PATTERN: &'static str = r"todo\((#|@)\S+\)";

/// Tells whether `s` begins with the word `todo`.
pub fn is_todo(s: &str) -> (found: bool)
    ensures
        found == starts_with_todo(s@),
{
    let len: usize = s.unicode_len();
    if len < 4 {
        return false;
    }
    let found = s.get_char(0) == 't' && s.get_char(1) == 'o' && s.get_char(2) == 'd' && s.get_char(
        3,
    ) == 'o';
    proof {
        if found {
            assert(s@.subrange(0, 4) =~= todo_word());
        }
    }
    found
}

/// Compiles `pattern` with `Regex::new` and searches `text` with
/// `Regex::is_match`, which tells whether the pattern matches anywhere in the
/// text. For the tag pattern, the one pattern this is called with, that is to
/// say that a tag stands in the text: the pattern is valid, `\(` and `\)`
/// match the brackets themselves, `(#|@)` one of the two signs, and `\S+` one
/// or more characters without the property `White_Space`.
#[verifier::external_body]
pub(crate) fn search(pattern: &str, text: &str) -> (found: bool)
    requires
        pattern@ == TAG_PATTERN@,
    ensures
        found == has_tag(text@),
{
    Regex::new(pattern).unwrap().is_match(text)
}

} // verus!
