//! Searching a text for a regular expression.

use vstd::prelude::*;

verus! {

/// The shape of a USB path: a bus, a colon, and ports from one to eight.
pub const USBPATH_PATTERN: &'static str = "\\w+:[1-8]+";

/// What [`regex_is_match`] answers for a pattern and a text.
pub uninterp spec fn regex_search(pattern: Seq<char>, text: Seq<char>) -> Option<bool>;

/// Whether a character belongs to the class `\w`. Of the ASCII characters
/// these are letters, digits and the underscore; of the others, those that a
/// search for `\w` finds.
pub open spec fn word_char(c: char) -> bool {
    if (c as u32) < 128 {
        'a' <= c <= 'z' || 'A' <= c <= 'Z' || '0' <= c <= '9' || c == '_'
    } else {
        regex_search("\\w"@, seq![c]) == Some(true)
    }
}

/// Whether a text has a colon at `i`, with a word character before it and a
/// digit from one to eight after it.
pub open spec fn usbpath_at(s: Seq<char>, i: int) -> bool {
    0 < i && i + 1 < s.len() && s[i] == ':' && word_char(s[i - 1]) && '1' <= s[i + 1] <= '8'
}

/// Whether a text holds a USB path anywhere.
pub open spec fn holds_usbpath(s: Seq<char>) -> bool {
    exists|i: int| #[trigger] usbpath_at(s, i)
}

/// Whether a text holds a match for a pattern: `regex::Regex::new`, then
/// `regex::Regex::is_match`; nothing where the pattern does not compile.
/// Claimed: the answer depends on the pattern and the text alone. Claimed of
/// the pattern `\w+:[1-8]+`: it compiles, and it matches exactly where some
/// colon has a word character before it and a digit from one to eight after
/// it, since a search is not anchored and one character of each class is
/// enough for a match.
#[verifier::external_body]
pub(crate) fn regex_is_match(pattern: &str, text: &str) -> (found: Option<bool>)
    ensures
        found == regex_search(pattern@, text@),
        pattern@ == "\\w+:[1-8]+"@ ==> found == Some(holds_usbpath(text@)),
{
    regex::Regex::new(pattern).ok().map(|re| re.is_match(text))
}

} // verus!
