//! Operations on text that the rest of the library builds on.

use vstd::prelude::*;
use vstd::string::*;

verus! {

/// The view of an optional text.
pub open spec fn optional_text(text: Option<&str>) -> Option<Seq<char>> {
    match text {
        Some(text) => Some(text@),
        None => None,
    }
}

/// The view of an optional owned text.
pub open spec fn optional_string(text: Option<String>) -> Option<Seq<char>> {
    match text {
        Some(text) => Some(text@),
        None => None,
    }
}

/// The text that lossy UTF-8 decoding makes of a sequence of bytes.
pub uninterp spec fn utf8_lossy(bytes: Seq<u8>) -> Seq<char>;

/// Decodes bytes as UTF-8 with `String::from_utf8_lossy`, which puts U+FFFD in place of each
/// malformed part. The contract only names the outcome: the same bytes give the same text.
#[verifier::external_body]
pub(crate) fn decode_lossy(bytes: &[u8]) -> (text: String)
    ensures
        text@ == utf8_lossy(bytes@),
{
    String::from_utf8_lossy(bytes).into_owned()
}

/// Whether `needle` stands somewhere in `haystack` as a run of consecutive characters.
pub open spec fn occurs_in(needle: Seq<char>, haystack: Seq<char>) -> bool {
    exists|start: int|
        0 <= start && start + needle.len() <= haystack.len() && #[trigger] haystack.subrange(
            start,
            start + needle.len(),
        ) == needle
}

/// Searches with `str::contains`, which reports whether the pattern matches a sub-slice of the
/// text. For a string pattern that is: whether it occurs as consecutive characters.
#[verifier::external_body]
pub(crate) fn contains(haystack: &str, needle: &str) -> (found: bool)
    ensures
        found == occurs_in(needle@, haystack@),
{
    haystack.contains(needle)
}

/// The path that adjoining `part` to the path `base` gives, on the platform the library is
/// built for.
pub uninterp spec fn path_join(base: Seq<char>, part: Seq<char>) -> Seq<char>;

/// Adjoins `part` to `base` with `Path::join`, which puts the platform's separator between
/// the two where one is needed. The contract only names the outcome.
#[verifier::external_body]
pub(crate) fn join_path(base: &str, part: &str) -> (path: String)
    ensures
        path@ == path_join(base@, part@),
{
    std::path::Path::new(base).join(part).to_string_lossy().into_owned()
}

/// Asks `home::home_dir` for the home directory of the current user. The answer depends on
/// the environment and on the user database, so nothing is promised of it.
#[verifier::external_body]
pub(crate) fn home_directory() -> (home: Option<String>) {
    match home::home_dir() {
        Some(path) => Some(path.to_string_lossy().into_owned()),
        None => None,
    }
}

/// Whether Unicode counts the character as white space.
pub uninterp spec fn is_whitespace(c: char) -> bool;

/// Asks `char::is_whitespace`, which goes by the Unicode property `White_Space`. The contract
/// only names the outcome.
#[verifier::external_body]
pub(crate) fn whitespace(c: char) -> (white: bool)
    ensures
        white == is_whitespace(c),
{
    c.is_whitespace()
}

/// Whether the text holds nothing but white space.
pub open spec fn blank(text: Seq<char>) -> bool {
    forall|i: int| 0 <= i < text.len() ==> is_whitespace(#[trigger] text[i])
}

/// Whether nothing is left of the text once the white space around it is trimmed away.
pub fn is_blank(text: &str) -> (b: bool)
    ensures
        b == blank(text@),
{
    let n: usize = text.unicode_len();
    let mut i: usize = 0;
    while i < n
        invariant
            n == text@.len(),
            i <= n,
            forall|j: int| 0 <= j < i ==> is_whitespace(#[trigger] text@[j]),
        decreases n - i,
    {
        if !whitespace(text.get_char(i)) {
            return false;
        }
        i += 1;
    }
    true
}

} // verus!
