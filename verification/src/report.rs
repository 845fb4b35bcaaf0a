//! The texts that a run writes to standard error.

use crate::decimal::{decimal, decimal_digits};
use crate::failure::{Failure, FailureView};
use crate::style::{bold_red, green, shown_bold_red, shown_green};
use vstd::prelude::*;
use vstd::string::*;

verus! {

/// The name under which the program presents itself.
pub open spec fn program_name() -> Seq<char> {
    "quickreplace"@
}

/// The word that opens every error message.
pub open spec fn error_marker() -> Seq<char> {
    "Error:"@
}

/// The two lines that explain how to call the program, each ended by a line
/// feed. `program` is the program's name as the first line shows it.
pub open spec fn usage_lines(program: Seq<char>) -> Seq<char> {
    program + " - change occurrences of one string into another\n"@
        + "Usage: quickreplace <target> <replacement> <INPUT> <OUTPUT>\n"@
}

/// The message of a failure. `marker` is the word that opens it. Only the
/// message of a usage failure ends with a line feed.
pub open spec fn error_message(failure: FailureView, marker: Seq<char>) -> Seq<char> {
    match failure {
        FailureView::Usage { got } => marker + " wrong number of arguments: expected 4, got "@
            + decimal_digits(got) + "\n"@,
        FailureView::Read { filename, reason } => marker + " failed to read from file '"@ + filename
            + "': "@ + reason,
        FailureView::Pattern { reason } => marker + " failed to replace text: "@ + reason,
        FailureView::Write { filename, reason } => marker + " failed to write to file '"@ + filename
            + "': "@ + reason,
    }
}

/// All that a failure writes to standard error: its message, after the usage
/// lines where the command line was at fault.
pub open spec fn error_report(failure: FailureView, program: Seq<char>, marker: Seq<char>) -> Seq<
    char,
> {
    match failure {
        FailureView::Usage { .. } => usage_lines(program) + error_message(failure, marker),
        _ => error_message(failure, marker),
    }
}

/// Whether `text` is what a failure writes to standard error, with the
/// program's name and the marker each in colour or plain.
pub open spec fn reports(failure: FailureView, text: Seq<char>) -> bool {
    exists|program: Seq<char>, marker: Seq<char>|
        shown_green(program_name(), program) && shown_bold_red(error_marker(), marker) && text
            == #[trigger] error_report(failure, program, marker)
}

/// The usage lines, with `program` as the program's name in the first.
pub fn usage_text(program: &str) -> (text: String)
    ensures
        text@ == usage_lines(program@),
{
    let mut text = String::from_str(program);
    text.append(" - change occurrences of one string into another\n");
    text.append("Usage: quickreplace <target> <replacement> <INPUT> <OUTPUT>\n");
    text
}

/// The usage lines as the program shows them: the program's name in green
/// where colours are on.
pub fn usage() -> (text: String)
    ensures
        exists|program: Seq<char>|
            shown_green(program_name(), program) && text@ == #[trigger] usage_lines(program),
{
    proof {
        reveal_strlit("quickreplace");
    }
    let program = green("quickreplace");
    usage_text(program.as_str())
}

impl Failure {
    /// The message of this failure, opened by `marker`.
    pub fn message(&self, marker: &str) -> (text: String)
        ensures
            text@ == error_message(self@, marker@),
    {
        let mut text = String::from_str(marker);
        match self {
            Failure::Usage { got } => {
                text.append(" wrong number of arguments: expected 4, got ");
                text.append(decimal(*got).as_str());
                text.append("\n");
            },
            Failure::Read { filename, reason } => {
                text.append(" failed to read from file '");
                text.append(filename.as_str());
                text.append("': ");
                text.append(reason.as_str());
            },
            Failure::Pattern { reason } => {
                text.append(" failed to replace text: ");
                text.append(reason.as_str());
            },
            Failure::Write { filename, reason } => {
                text.append(" failed to write to file '");
                text.append(filename.as_str());
                text.append("': ");
                text.append(reason.as_str());
            },
        }
        text
    }

    /// All that this failure writes to standard error, as the program shows
    /// it: the marker in bold red, and the program's name in green, where
    /// colours are on.
    pub fn report(&self) -> (text: String)
        ensures
            reports(self@, text@),
    {
        proof {
            reveal_strlit("Error:");
        }
        let marker = bold_red("Error:");
        match self {
            Failure::Usage { .. } => {
                let mut text = usage();
                let ghost program = choose|program: Seq<char>|
                    shown_green(program_name(), program) && text@ == #[trigger] usage_lines(
                        program,
                    );
                text.append(self.message(marker.as_str()).as_str());
                proof {
                    assert(text@ == error_report(self@, program, marker@));
                }
                text
            },
            _ => {
                let text = self.message(marker.as_str());
                proof {
                    assert(text@ == error_report(self@, program_name(), marker@));
                }
                text
            },
        }
    }
}

} // verus!
