//! What the operator's terminal is shown.

use vstd::prelude::*;
use crate::outcome::Outcome;

verus! {

/// The escape sequence that switches the foreground to green.
pub open spec fn green_sequence() -> Seq<char> {
    "\x1B[32m"@
}

/// The escape sequence that resets every colour and style.
pub open spec fn reset_sequence() -> Seq<char> {
    "\x1B[0m"@
}

/// Whether the text holds a reset sequence somewhere.
pub open spec fn holds_reset(text: Seq<char>) -> bool {
    exists|at: int|
        0 <= at && at + reset_sequence().len() <= text.len() && #[trigger] text.subrange(
            at,
            at + reset_sequence().len(),
        ) == reset_sequence()
}

/// What a terminal may be shown for a green text. Where colours are off, the
/// text itself. Where they are on, something between the green sequence and
/// the reset sequence, which is the text itself unless the text holds a
/// reset sequence of its own.
pub open spec fn shows_green(text: Seq<char>, shown: Seq<char>) -> bool {
    ||| shown == text
    ||| {
        &&& exists|body: Seq<char>|
            shown == #[trigger] (green_sequence() + body) + reset_sequence()
        &&& !holds_reset(text) ==> shown == green_sequence() + text + reset_sequence()
    }
}

/// `Colorize::green` on the text, rendered by the `Display` of the coloured
/// string it returns. Whether colours are on is the environment's matter, so
/// the contract covers both renderings: the text as it is, or the text
/// between the green sequence and the reset sequence. In the second, the
/// green sequence is repeated after every reset sequence inside the text;
/// the contract gives the body exactly where the text holds none.
#[verifier::external_body]
fn paint_green(text: &str) -> (shown: String)
    ensures
        shows_green(text@, shown@),
{
    colored::Colorize::green(text).to_string()
}

/// What the terminal is shown for a settled attempt: its log line in green
/// for a success, nothing for any other outcome.
pub fn console_notice(outcome: &Outcome, line: &str) -> (notice: Option<String>)
    ensures
        notice is Some <==> *outcome == Outcome::Success,
        notice is Some ==> shows_green(line@, notice->0@),
{
    match outcome {
        Outcome::Success => Some(paint_green(line)),
        _ => None,
    }
}

} // verus!
