//! Coloured text for a terminal.

use colored::Colorize;
use vstd::prelude::*;

use crate::text;

verus! {

/// The colour of a line.
#[derive(Clone, Copy, PartialEq, Eq, Debug, Structural)]
pub enum LineColor {
    Plain,
    Red,
    Yellow,
}

/// Whether `painted` is `text` alone, or between a colour code and the code that
/// resets it. Where colours are switched on or off by another thread meanwhile,
/// the first code can be missing.
pub open spec fn is_painted(painted: Seq<char>, text: Seq<char>, code: Seq<char>) -> bool {
    ||| painted == text
    ||| painted == text + "\u{1b}[0m"@
    ||| painted == code + text + "\u{1b}[0m"@
}

/// Whether the first `n` characters of a text are free of the escape character.
pub open spec fn escape_free(s: Seq<char>, n: nat) -> bool
    decreases n,
{
    n == 0 || (s[n - 1] != '\u{1b}' && escape_free(s, (n - 1) as nat))
}

/// A text without an escape character holds no reset code.
pub proof fn escape_free_has_no_reset(s: Seq<char>)
    requires
        escape_free(s, s.len()),
    ensures
        !text::occurs_in("\u{1b}[0m"@, s),
{
    reveal_strlit("\u{1b}[0m");
    if text::occurs_in("\u{1b}[0m"@, s) {
        let i = choose|i: int|
            0 <= i && i + 4 <= s.len() && #[trigger] s.subrange(i, i + 4) == "\u{1b}[0m"@;
        assert(s.subrange(i, i + 4)[0] == s[i]);
        escape_free_at(s, s.len(), i);
    }
}

/// A character before the `n`-th of an escape-free text is no escape.
proof fn escape_free_at(s: Seq<char>, n: nat, i: int)
    requires
        escape_free(s, n),
        0 <= i < n,
    ensures
        s[i] != '\u{1b}',
    decreases n,
{
    if i < n - 1 {
        escape_free_at(s, (n - 1) as nat, i);
    }
}

/// A text in red: `colored::Colorize::red`, then the text of what that gives.
/// Claimed, of a text without a reset code: it comes back as it is, or before
/// the reset code, with the code for red before it or without. Which of these
/// rests on the terminal, the environment and the override that the program can
/// set.
#[verifier::external_body]
pub(crate) fn paint_red(text: &str) -> (painted: String)
    requires
        !text::occurs_in("\u{1b}[0m"@, text@),
    ensures
        is_painted(painted@, text@, "\u{1b}[31m"@),
{
    text.red().to_string()
}

/// A text in yellow: `colored::Colorize::yellow`, then the text of what that
/// gives. Claimed as for red, with the code for yellow.
#[verifier::external_body]
pub(crate) fn paint_yellow(text: &str) -> (painted: String)
    requires
        !text::occurs_in("\u{1b}[0m"@, text@),
    ensures
        is_painted(painted@, text@, "\u{1b}[33m"@),
{
    text.yellow().to_string()
}

} // verus!
