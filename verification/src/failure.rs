//! The ways in which a run fails. Each one ends the run at once, with exit
//! status 1.

use vstd::prelude::*;

verus! {

/// The exit status of a run that failed, whatever the failure.
pub const FAILURE_STATUS: i32 = 1;

/// The exit status of a run that wrote its output.
pub const SUCCESS_STATUS: i32 = 0;

/// Why a run ended without writing its output.
#[derive(Clone, Debug, PartialEq, Eq)]
pub enum Failure {
    /// The command line did not hold exactly four arguments, but `got`.
    Usage { got: usize },
    /// The input file could not be read. `filename` is the path that was
    /// tried and `reason` the system's description of the error.
    Read { filename: String, reason: String },
    /// The pattern did not compile. `reason` is the engine's description of
    /// its fault.
    Pattern { reason: String },
    /// The output file could not be written. `filename` is the file name
    /// that the message shows and `reason` the system's description of the
    /// error.
    Write { filename: String, reason: String },
}

/// A failure as a mathematical value.
pub enum FailureView {
    Usage { got: nat },
    Read { filename: Seq<char>, reason: Seq<char> },
    Pattern { reason: Seq<char> },
    Write { filename: Seq<char>, reason: Seq<char> },
}

impl View for Failure {
    type V = FailureView;

    open spec fn view(&self) -> FailureView {
        match self {
            Failure::Usage { got } => FailureView::Usage { got: *got as nat },
            Failure::Read { filename, reason } => FailureView::Read {
                filename: filename@,
                reason: reason@,
            },
            Failure::Pattern { reason } => FailureView::Pattern { reason: reason@ },
            Failure::Write { filename, reason } => FailureView::Write {
                filename: filename@,
                reason: reason@,
            },
        }
    }
}

impl Failure {
    /// The status with which the process exits after this failure.
    pub fn exit_code(&self) -> (code: i32)
        ensures
            code == FAILURE_STATUS,
    {
        FAILURE_STATUS
    }
}

} // verus!
