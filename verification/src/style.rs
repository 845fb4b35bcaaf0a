//! Colours for the words that the messages set off. The `text_colorizer`
//! crate decides, from the terminal and the environment, whether a text is
//! shown in colour at all.

use text_colorizer::Colorize;
use vstd::prelude::*;

verus! {

/// Whether a text is free of the escape character, with which every colour
/// code begins.
pub open spec fn escape_free(text: Seq<char>) -> bool {
    forall|i: int| 0 <= i < text.len() ==> text[i] != '\u{1b}'
}

/// A text between the code for a green foreground and the code that resets
/// all styles.
pub open spec fn green_text(text: Seq<char>) -> Seq<char> {
    "\u{1b}[32m"@ + text + "\u{1b}[0m"@
}

/// A text between the code for bold type with a red foreground and the code
/// that resets all styles.
pub open spec fn bold_red_text(text: Seq<char>) -> Seq<char> {
    "\u{1b}[1;31m"@ + text + "\u{1b}[0m"@
}

/// Whether `shown` is the word `plain` as it may appear in green: in green,
/// or unchanged where colours are off.
pub open spec fn shown_green(plain: Seq<char>, shown: Seq<char>) -> bool {
    shown == plain || shown == green_text(plain)
}

/// Whether `shown` is the word `plain` as it may appear in bold red: in bold
/// red, or unchanged where colours are off.
pub open spec fn shown_bold_red(plain: Seq<char>, shown: Seq<char>) -> bool {
    shown == plain || shown == bold_red_text(plain)
}

/// Calls `Colorize::green` of `text_colorizer` on the text and formats the
/// coloured string with `Display`. Whether colours are on depends on the
/// terminal and the environment, so the contract gives both outcomes: a text
/// without escape characters comes back unchanged or between the two codes.
#[verifier::external_body]
pub(crate) fn green(text: &str) -> (shown: String)
    ensures
        escape_free(text@) ==> shown_green(text@, shown@),
{
    text.green().to_string()
}

/// Calls `Colorize::red` and `Colorize::bold` of `text_colorizer` on the text
/// and formats the coloured string with `Display`. Whether colours are on
/// depends on the terminal and the environment, so the contract gives both
/// outcomes: a text without escape characters comes back unchanged or
/// between the two codes.
#[verifier::external_body]
pub(crate) fn bold_red(text: &str) -> (shown: String)
    ensures
        escape_free(text@) ==> shown_bold_red(text@, shown@),
{
    text.red().bold().to_string()
}

} // verus!
