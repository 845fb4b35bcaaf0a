//! Whole runs: the actions that the state machine takes, one after another,
//! when each of them is performed and answered. The files are a parameter, so
//! that what is proved here holds of every file system.

use crate::arguments::ARGUMENT_COUNT;
use crate::failure::FailureView;
use crate::pattern::{compiled, error_text, replace_spec};
use crate::pipeline::{next, ActionView, EventView, OutcomeView, StageView};
use vstd::prelude::*;

verus! {

/// The files as a run finds them.
pub struct World {
    /// What reading the file at a path gives: all of its text, or the reason
    /// why it cannot be read.
    pub read: spec_fn(Seq<char>) -> Result<Seq<char>, Seq<char>>,
    /// How writing a text to the file at a path goes: well, or the reason why
    /// it cannot be written.
    pub write: spec_fn(Seq<char>, Seq<char>) -> Result<(), Seq<char>>,
}

impl World {
    /// The event with which the world answers an action; `None` for `Exit`,
    /// after which nothing happens.
    pub open spec fn answer(self, action: ActionView) -> Option<EventView> {
        match action {
            ActionView::ReadInput { path } => Some(
                match (self.read)(path) {
                    Ok(content) => EventView::InputRead { content },
                    Err(reason) => EventView::InputUnreadable { reason },
                },
            ),
            ActionView::WriteOutput { path, content } => Some(
                match (self.write)(path, content) {
                    Ok(_) => EventView::OutputWritten,
                    Err(reason) => EventView::OutputUnwritable { reason },
                },
            ),
            ActionView::Exit(_) => None,
        }
    }
}

impl StageView {
    /// An upper bound on the steps that a run can still take from the stage.
    pub open spec fn steps_left(self) -> nat {
        match self {
            StageView::Start => 3,
            StageView::Reading(_) => 2,
            StageView::Writing(_) => 1,
            StageView::Done => 0,
        }
    }
}

/// The actions that a run takes, in order, from a stage and an event on: each
/// action is performed in the world, and the world's answer is the next
/// event.
pub open spec fn actions_from(stage: StageView, event: EventView, world: World) -> Seq<ActionView>
    decreases stage.steps_left(),
{
    match next(stage, event) {
        Some((following, action)) => match world.answer(action) {
            Some(answer) => seq![action] + actions_from(following, answer, world),
            None => seq![action],
        },
        None => Seq::empty(),
    }
}

/// All the actions of the run that a command line starts in a world.
pub open spec fn run(args: Seq<Seq<char>>, world: World) -> Seq<ActionView> {
    actions_from(StageView::Start, EventView::Launched { args }, world)
}

/// A run ends with the first `Exit`, which is its last action, and takes
/// three actions at most.
pub proof fn lemma_run_ends_with_exit(args: Seq<Seq<char>>, world: World)
    ensures
        1 <= run(args, world).len() <= 3,
        run(args, world).last() is Exit,
        forall|i: int| 0 <= i < run(args, world).len() - 1 ==> !(run(args, world)[i] is Exit),
{
    reveal_with_fuel(actions_from, 4);
}

/// With an argument count other than four, a run does one thing: it exits
/// with status 1 and a usage failure that tells the count. No file is read
/// and none is written.
pub proof fn lemma_wrong_argument_count(args: Seq<Seq<char>>, world: World)
    requires
        args.len() != ARGUMENT_COUNT,
    ensures
        run(args, world) == seq![
            ActionView::Exit(OutcomeView::Failed(FailureView::Usage { got: args.len() })),
        ],
        OutcomeView::Failed(FailureView::Usage { got: args.len() }).exit_code() == 1,
{
    reveal_with_fuel(actions_from, 4);
}

/// With four arguments and an input file that cannot be read, a run asks for
/// the input file and then exits with status 1 and a read failure. No file
/// is written, and the pattern is not looked at.
pub proof fn lemma_unreadable_input(args: Seq<Seq<char>>, world: World, reason: Seq<char>)
    requires
        args.len() == ARGUMENT_COUNT,
        (world.read)(args[2]) == Err::<Seq<char>, Seq<char>>(reason),
    ensures
        run(args, world) == seq![
            ActionView::ReadInput { path: args[2] },
            ActionView::Exit(
                OutcomeView::Failed(FailureView::Read { filename: args[2], reason }),
            ),
        ],
        OutcomeView::Failed(FailureView::Read { filename: args[2], reason }).exit_code() == 1,
{
    reveal_with_fuel(actions_from, 4);
}

/// With four arguments of which the pattern does not compile, a run asks for
/// the input file and then exits with status 1. Where the file was read, the
/// failure is that of the pattern. No file is written.
pub proof fn lemma_invalid_pattern(args: Seq<Seq<char>>, world: World)
    requires
        args.len() == ARGUMENT_COUNT,
        compiled(args[0]) is Err,
    ensures
        run(args, world).len() == 2,
        run(args, world)[0] == (ActionView::ReadInput { path: args[2] }),
        run(args, world)[1] matches ActionView::Exit(outcome) && outcome.exit_code() == 1,
        (world.read)(args[2]) is Ok ==> run(args, world)[1] == ActionView::Exit(
            OutcomeView::Failed(
                FailureView::Pattern { reason: error_text(compiled(args[0])->Err_0) },
            ),
        ),
{
    reveal_with_fuel(actions_from, 4);
}

/// With four arguments, a pattern that compiles and an input file that can be
/// read, a run asks for the input file and then for the output file to be
/// written, with the text in which every match is replaced. Where that goes
/// well, the run exits with status 0; where it does not, with status 1 and a
/// write failure, whose message shows the first of the two paths.
pub proof fn lemma_valid_run(args: Seq<Seq<char>>, world: World, text: Seq<char>)
    requires
        args.len() == ARGUMENT_COUNT,
        compiled(args[0]) is Ok,
        (world.read)(args[2]) == Ok::<Seq<char>, Seq<char>>(text),
    ensures
        replace_spec(args[0], args[1], text) is Ok,
        run(args, world).len() == 3,
        run(args, world)[0] == (ActionView::ReadInput { path: args[2] }),
        run(args, world)[1] == (ActionView::WriteOutput {
            path: args[3],
            content: replace_spec(args[0], args[1], text)->Ok_0,
        }),
        match (world.write)(args[3], replace_spec(args[0], args[1], text)->Ok_0) {
            Ok(_) => run(args, world)[2] == ActionView::Exit(OutcomeView::Success)
                && OutcomeView::Success.exit_code() == 0,
            Err(reason) => run(args, world)[2] == ActionView::Exit(
                OutcomeView::Failed(FailureView::Write { filename: args[2], reason }),
            ),
        },
{
    reveal_with_fuel(actions_from, 4);
}

/// A run writes at most once, as its second action, and only what the
/// replacement made of the input file's text, to the output path: so only
/// with four arguments, an input file that was read and a pattern that
/// compiled.
pub proof fn lemma_writes_only_the_replacement(args: Seq<Seq<char>>, world: World, i: int)
    requires
        0 <= i < run(args, world).len(),
        run(args, world)[i] is WriteOutput,
    ensures
        i == 1,
        args.len() == ARGUMENT_COUNT,
        (world.read)(args[2]) matches Ok(text) && replace_spec(args[0], args[1], text) matches Ok(
            content,
        ) && run(args, world)[i] == (ActionView::WriteOutput { path: args[3], content }),
{
    reveal_with_fuel(actions_from, 4);
}

} // verus!
