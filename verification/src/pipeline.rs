//! The run as a state machine. Each step takes the stage that the run has
//! reached and the event that just happened, and decides what to do next.
//! Reading and writing files is left to the caller: a step asks for it with
//! an action and learns how it went from the next event.
//!
//! A run starts in `Stage::Start` with `Event::Launched`. Parsing the
//! arguments and replacing the matches need no outside work, so they happen
//! within a step.

use crate::arguments::{parse_args, parsed, Arguments, Invocation};
use crate::failure::{Failure, FailureView, FAILURE_STATUS, SUCCESS_STATUS};
use crate::pattern::{replace, replace_spec, PatternError};
use crate::report::reports;
use vstd::prelude::*;

verus! {

/// How a run ended.
#[derive(Clone, Debug, PartialEq, Eq)]
pub enum Outcome {
    /// The output file was written.
    Success,
    /// The run failed, and wrote no output.
    Failed(Failure),
}

/// An outcome as a mathematical value.
pub enum OutcomeView {
    Success,
    Failed(FailureView),
}

impl View for Outcome {
    type V = OutcomeView;

    open spec fn view(&self) -> OutcomeView {
        match self {
            Outcome::Success => OutcomeView::Success,
            Outcome::Failed(failure) => OutcomeView::Failed(failure@),
        }
    }
}

impl OutcomeView {
    /// The exit status that goes with the outcome.
    pub open spec fn exit_code(self) -> int {
        match self {
            OutcomeView::Success => SUCCESS_STATUS as int,
            OutcomeView::Failed(_) => FAILURE_STATUS as int,
        }
    }

    /// Whether `text` is what the outcome writes to standard error: nothing
    /// after a success, the failure's report else.
    pub open spec fn reports(self, text: Seq<char>) -> bool {
        match self {
            OutcomeView::Success => text == Seq::<char>::empty(),
            OutcomeView::Failed(failure) => reports(failure, text),
        }
    }
}

impl Outcome {
    /// The status with which the process exits: 0 after a success, 1 after
    /// any failure.
    pub fn exit_code(&self) -> (code: i32)
        ensures
            code == self@.exit_code(),
    {
        match self {
            Outcome::Success => SUCCESS_STATUS,
            Outcome::Failed(failure) => failure.exit_code(),
        }
    }

    /// What the process writes to standard error before it exits.
    pub fn report(&self) -> (text: String)
        ensures
            self@.reports(text@),
    {
        match self {
            Outcome::Success => String::new(),
            Outcome::Failed(failure) => failure.report(),
        }
    }
}

/// How far a run has come.
#[derive(Clone, Debug, PartialEq, Eq)]
pub enum Stage {
    /// Nothing has happened yet.
    Start,
    /// The arguments are parsed, and the input file is being read.
    Reading(Arguments),
    /// The matches are replaced, and the output file is being written.
    Writing(Arguments),
    /// The run is over.
    Done,
}

/// A stage as a mathematical value.
pub enum StageView {
    Start,
    Reading(Invocation),
    Writing(Invocation),
    Done,
}

impl View for Stage {
    type V = StageView;

    open spec fn view(&self) -> StageView {
        match self {
            Stage::Start => StageView::Start,
            Stage::Reading(arguments) => StageView::Reading(arguments@),
            Stage::Writing(arguments) => StageView::Writing(arguments@),
            Stage::Done => StageView::Done,
        }
    }
}

/// What happened outside since the last step.
#[derive(Clone, Debug, PartialEq, Eq)]
pub enum Event {
    /// The process was started with these arguments, the program's name
    /// left out.
    Launched { args: Vec<String> },
    /// The input file was read, and this is all of its text.
    InputRead { content: String },
    /// The input file could not be read, for this reason.
    InputUnreadable { reason: String },
    /// The output file was written in full.
    OutputWritten,
    /// The output file could not be written, for this reason.
    OutputUnwritable { reason: String },
}

/// An event as a mathematical value.
pub enum EventView {
    Launched { args: Seq<Seq<char>> },
    InputRead { content: Seq<char> },
    InputUnreadable { reason: Seq<char> },
    OutputWritten,
    OutputUnwritable { reason: Seq<char> },
}

impl View for Event {
    type V = EventView;

    open spec fn view(&self) -> EventView {
        match self {
            Event::Launched { args } => EventView::Launched { args: args.deep_view() },
            Event::InputRead { content } => EventView::InputRead { content: content@ },
            Event::InputUnreadable { reason } => EventView::InputUnreadable { reason: reason@ },
            Event::OutputWritten => EventView::OutputWritten,
            Event::OutputUnwritable { reason } => EventView::OutputUnwritable { reason: reason@ },
        }
    }
}

/// What the caller is to do after a step.
#[derive(Clone, Debug, PartialEq, Eq)]
pub enum Action {
    /// Read all of the file at `path` as text, and report `InputRead` or
    /// `InputUnreadable`.
    ReadInput { path: String },
    /// Write `content` to the file at `path`, creating or truncating it, and
    /// report `OutputWritten` or `OutputUnwritable`.
    WriteOutput { path: String, content: String },
    /// Write the outcome's report to standard error and exit with its
    /// status.
    Exit(Outcome),
}

/// An action as a mathematical value.
pub enum ActionView {
    ReadInput { path: Seq<char> },
    WriteOutput { path: Seq<char>, content: Seq<char> },
    Exit(OutcomeView),
}

impl View for Action {
    type V = ActionView;

    open spec fn view(&self) -> ActionView {
        match self {
            Action::ReadInput { path } => ActionView::ReadInput { path: path@ },
            Action::WriteOutput { path, content } => ActionView::WriteOutput {
                path: path@,
                content: content@,
            },
            Action::Exit(outcome) => ActionView::Exit(outcome@),
        }
    }
}

impl StageView {
    /// Whether the stage awaits the event: the launch at the start, the
    /// outcome of reading while the input file is read, the outcome of
    /// writing while the output file is written, and nothing when the run is
    /// over.
    pub open spec fn awaits(self, event: EventView) -> bool {
        match self {
            StageView::Start => event is Launched,
            StageView::Reading(_) => event is InputRead || event is InputUnreadable,
            StageView::Writing(_) => event is OutputWritten || event is OutputUnwritable,
            StageView::Done => false,
        }
    }
}

/// The step that ends a run with a failure.
pub open spec fn failed(failure: FailureView) -> (StageView, ActionView) {
    (StageView::Done, ActionView::Exit(OutcomeView::Failed(failure)))
}

/// The first step of a run: with four arguments the input file is to be
/// read, else the run ends with a usage failure.
pub open spec fn launched(args: Seq<Seq<char>>) -> (StageView, ActionView) {
    match parsed(args) {
        Ok(invocation) => (
            StageView::Reading(invocation),
            ActionView::ReadInput { path: invocation.filename },
        ),
        Err(failure) => failed(failure),
    }
}

/// The step after the replacement: its result is to be written to the output
/// file, or the run ends with a pattern failure.
pub open spec fn substituted(invocation: Invocation, result: Result<Seq<char>, Seq<char>>) -> (
    StageView,
    ActionView,
) {
    match result {
        Ok(content) => (
            StageView::Writing(invocation),
            ActionView::WriteOutput { path: invocation.output, content },
        ),
        Err(reason) => failed(FailureView::Pattern { reason }),
    }
}

/// The step that a stage takes on an event: the next stage and the action,
/// or `None` where the stage does not await the event. The message of a
/// write failure shows the invocation's `filename`, as that of a read failure
/// does.
pub open spec fn next(stage: StageView, event: EventView) -> Option<(StageView, ActionView)> {
    match (stage, event) {
        (StageView::Start, EventView::Launched { args }) => Some(launched(args)),
        (StageView::Reading(invocation), EventView::InputRead { content }) => Some(
            substituted(
                invocation,
                replace_spec(invocation.target, invocation.replacement, content),
            ),
        ),
        (StageView::Reading(invocation), EventView::InputUnreadable { reason }) => Some(
            failed(FailureView::Read { filename: invocation.filename, reason }),
        ),
        (StageView::Writing(_), EventView::OutputWritten) => Some(
            (StageView::Done, ActionView::Exit(OutcomeView::Success)),
        ),
        (StageView::Writing(invocation), EventView::OutputUnwritable { reason }) => Some(
            failed(FailureView::Write { filename: invocation.filename, reason }),
        ),
        _ => None,
    }
}

/// Ends a run with a failure.
fn fail(failure: Failure) -> (step: (Stage, Action))
    ensures
        step@ == failed(failure@),
{
    (Stage::Done, Action::Exit(Outcome::Failed(failure)))
}

/// Takes the first step of a run, from the command line arguments.
pub fn launch(args: &[String]) -> (step: (Stage, Action))
    ensures
        step@ == launched(args.deep_view()),
{
    match parse_args(args) {
        Ok(arguments) => {
            let path = arguments.filename.clone();
            (Stage::Reading(arguments), Action::ReadInput { path })
        },
        Err(failure) => fail(failure),
    }
}

/// Takes the step that follows the replacement, from its result.
pub fn after_replace(arguments: Arguments, result: Result<String, PatternError>) -> (step: (
    Stage,
    Action,
))
    ensures
        step@ == substituted(
            arguments@,
            match result {
                Ok(content) => Ok(content@),
                Err(error) => Err(error@),
            },
        ),
{
    match result {
        Ok(content) => {
            let path = arguments.output.clone();
            (Stage::Writing(arguments), Action::WriteOutput { path, content })
        },
        Err(error) => fail(Failure::Pattern { reason: error.message }),
    }
}

/// Takes one step of a run. The result is `None` exactly where the stage
/// does not await the event.
pub fn step(stage: Stage, event: Event) -> (result: Option<(Stage, Action)>)
    ensures
        result is Some <==> stage@.awaits(event@),
        match result {
            Some(taken) => next(stage@, event@) == Some(taken@),
            None => next(stage@, event@) is None,
        },
{
    match stage {
        Stage::Start => match event {
            Event::Launched { args } => Some(launch(args.as_slice())),
            _ => None,
        },
        Stage::Reading(arguments) => match event {
            Event::InputRead { content } => {
                let result = replace(
                    arguments.target.as_str(),
                    arguments.replacement.as_str(),
                    content.as_str(),
                );
                Some(after_replace(arguments, result))
            },
            Event::InputUnreadable { reason } => Some(
                fail(Failure::Read { filename: arguments.filename, reason }),
            ),
            _ => None,
        },
        Stage::Writing(arguments) => match event {
            Event::OutputWritten => Some((Stage::Done, Action::Exit(Outcome::Success))),
            Event::OutputUnwritable { reason } => Some(
                fail(Failure::Write { filename: arguments.filename, reason }),
            ),
            _ => None,
        },
        Stage::Done => None,
    }
}

} // verus!
