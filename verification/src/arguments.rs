//! The argument parser: from the list of command line arguments to the four
//! values of an invocation.

use crate::failure::{Failure, FailureView};
use vstd::prelude::*;

verus! {

/// The number of arguments that an invocation takes.
pub const ARGUMENT_COUNT: usize = 4;

/// The arguments of one run, in the order of the command line. They are set
/// once, when the command line is parsed.
#[derive(Clone, Debug, PartialEq, Eq)]
pub struct Arguments {
    /// The pattern to look for, a regular expression.
    pub target: String,
    /// What each match is replaced by. `$` references in it stand for the
    /// groups that the pattern captured.
    pub replacement: String,
    /// The path of the file to read.
    pub filename: String,
    /// The path of the file to write.
    pub output: String,
}

/// An invocation as a mathematical value: the four texts of the command
/// line.
pub struct Invocation {
    pub target: Seq<char>,
    pub replacement: Seq<char>,
    pub filename: Seq<char>,
    pub output: Seq<char>,
}

impl View for Arguments {
    type V = Invocation;

    open spec fn view(&self) -> Invocation {
        Invocation {
            target: self.target@,
            replacement: self.replacement@,
            filename: self.filename@,
            output: self.output@,
        }
    }
}

/// What a list of arguments, the program's name left out, stands for: with
/// exactly four of them the invocation that holds them unchanged and in
/// order, else a usage failure that tells how many there were.
pub open spec fn parsed(args: Seq<Seq<char>>) -> Result<Invocation, FailureView> {
    if args.len() == ARGUMENT_COUNT {
        Ok(Invocation { target: args[0], replacement: args[1], filename: args[2], output: args[3] })
    } else {
        Err(FailureView::Usage { got: args.len() })
    }
}

/// Parses the command line arguments, the program's name left out. The
/// pattern is not looked at here: a faulty one shows when it is compiled.
pub fn parse_args(args: &[String]) -> (result: Result<Arguments, Failure>)
    ensures
        result is Ok <==> args.len() == ARGUMENT_COUNT,
        match result {
            Ok(arguments) => parsed(args.deep_view()) == Ok::<Invocation, FailureView>(arguments@),
            Err(failure) => parsed(args.deep_view()) == Err::<Invocation, FailureView>(failure@),
        },
{
    if args.len() != ARGUMENT_COUNT {
        return Err(Failure::Usage { got: args.len() });
    }
    Ok(
        Arguments {
            target: args[0].clone(),
            replacement: args[1].clone(),
            filename: args[2].clone(),
            output: args[3].clone(),
        },
    )
}

} // verus!
