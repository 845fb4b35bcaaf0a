use quickreplace::arguments::Arguments;
use quickreplace::failure::Failure;
use quickreplace::pattern::PatternError;
use quickreplace::pipeline::{after_replace, launch, step, Action, Event, Outcome, Stage};

fn strings(words: &[&str]) -> Vec<String> {
    words.iter().map(|word| word.to_string()).collect()
}

fn arguments(target: &str, replacement: &str, filename: &str, output: &str) -> Arguments {
    Arguments {
        target: target.to_string(),
        replacement: replacement.to_string(),
        filename: filename.to_string(),
        output: output.to_string(),
    }
}

/// Runs the machine to its end in a world where reading gives `input` and
/// writing goes as `written` says, and returns the actions it took.
fn run(args: &[&str], input: Result<&str, &str>, written: Result<(), &str>) -> Vec<Action> {
    let mut actions = Vec::new();
    let mut stage = Stage::Start;
    let mut event = Event::Launched { args: strings(args) };
    loop {
        let (next, action) = step(stage, event).unwrap();
        stage = next;
        actions.push(action.clone());
        event = match action {
            Action::ReadInput { .. } => match input {
                Ok(content) => Event::InputRead { content: content.to_string() },
                Err(reason) => Event::InputUnreadable { reason: reason.to_string() },
            },
            Action::WriteOutput { .. } => match written {
                Ok(()) => Event::OutputWritten,
                Err(reason) => Event::OutputUnwritable { reason: reason.to_string() },
            },
            Action::Exit(_) => {
                assert_eq!(stage, Stage::Done);
                return actions;
            }
        };
    }
}

fn exit_code(actions: &[Action]) -> i32 {
    match actions.last() {
        Some(Action::Exit(outcome)) => outcome.exit_code(),
        _ => panic!("the run did not end with an exit"),
    }
}

#[test]
fn scenario_cat_becomes_dog() {
    let actions = run(&["cat", "dog", "in.txt", "out.txt"], Ok("the cat sat"), Ok(()));
    assert_eq!(
        actions,
        vec![
            Action::ReadInput { path: "in.txt".to_string() },
            Action::WriteOutput { path: "out.txt".to_string(), content: "the dog sat".to_string() },
            Action::Exit(Outcome::Success),
        ]
    );
    assert_eq!(exit_code(&actions), 0);
}

#[test]
fn scenario_groups_are_swapped() {
    let actions = run(&[r"(\w+)@(\w+)", "$2@$1", "in.txt", "out.txt"], Ok("user@host"), Ok(()));
    assert_eq!(
        actions,
        vec![
            Action::ReadInput { path: "in.txt".to_string() },
            Action::WriteOutput { path: "out.txt".to_string(), content: "host@user".to_string() },
            Action::Exit(Outcome::Success),
        ]
    );
    assert_eq!(exit_code(&actions), 0);
}

#[test]
fn scenario_three_arguments() {
    let actions = run(&["cat", "dog", "in.txt"], Ok("the cat sat"), Ok(()));
    assert_eq!(actions, vec![Action::Exit(Outcome::Failed(Failure::Usage { got: 3 }))]);
    assert_eq!(exit_code(&actions), 1);
    let report = match &actions[0] {
        Action::Exit(outcome) => outcome.report(),
        _ => unreachable!(),
    };
    assert!(report.contains(" - change occurrences of one string into another\n"));
    assert!(report.contains("Usage: quickreplace <target> <replacement> <INPUT> <OUTPUT>\n"));
    assert!(report.ends_with(" wrong number of arguments: expected 4, got 3\n"));
}

#[test]
fn scenario_unbalanced_bracket() {
    let actions = run(&["[", "x", "in.txt", "out.txt"], Ok("text"), Ok(()));
    let reason = format!("{:?}", regex::Regex::new("[").unwrap_err());
    assert_eq!(
        actions,
        vec![
            Action::ReadInput { path: "in.txt".to_string() },
            Action::Exit(Outcome::Failed(Failure::Pattern { reason })),
        ]
    );
    assert_eq!(exit_code(&actions), 1);
}

#[test]
fn a_wrong_count_reads_and_writes_nothing() {
    let mut args: Vec<&str> = Vec::new();
    while args.len() <= 8 {
        if args.len() != 4 {
            let actions = run(&args, Ok("text"), Ok(()));
            assert_eq!(
                actions,
                vec![Action::Exit(Outcome::Failed(Failure::Usage { got: args.len() }))]
            );
            assert_eq!(exit_code(&actions), 1);
        }
        args.push("a");
    }
}

#[test]
fn an_unreadable_input_ends_the_run_before_the_pattern_is_seen() {
    let actions = run(&["[", "x", "missing.txt", "out.txt"], Err("NotFound"), Ok(()));
    assert_eq!(
        actions,
        vec![
            Action::ReadInput { path: "missing.txt".to_string() },
            Action::Exit(Outcome::Failed(Failure::Read {
                filename: "missing.txt".to_string(),
                reason: "NotFound".to_string(),
            })),
        ]
    );
    assert_eq!(exit_code(&actions), 1);
}

#[test]
fn an_unwritable_output_fails_the_run() {
    let actions = run(&["a", "b", "in.txt", "out.txt"], Ok("banana"), Err("PermissionDenied"));
    assert_eq!(
        actions,
        vec![
            Action::ReadInput { path: "in.txt".to_string() },
            Action::WriteOutput { path: "out.txt".to_string(), content: "bbnbnb".to_string() },
            Action::Exit(Outcome::Failed(Failure::Write {
                filename: "in.txt".to_string(),
                reason: "PermissionDenied".to_string(),
            })),
        ]
    );
    assert_eq!(exit_code(&actions), 1);
}

#[test]
fn input_and_output_may_be_one_file() {
    let actions = run(&["a", "b", "file", "file"], Ok("a"), Ok(()));
    assert_eq!(
        actions,
        vec![
            Action::ReadInput { path: "file".to_string() },
            Action::WriteOutput { path: "file".to_string(), content: "b".to_string() },
            Action::Exit(Outcome::Success),
        ]
    );
}

#[test]
fn an_empty_input_is_written_as_it_is() {
    let actions = run(&["a", "b", "in", "out"], Ok(""), Ok(()));
    assert_eq!(
        actions[1],
        Action::WriteOutput { path: "out".to_string(), content: String::new() }
    );
    assert_eq!(exit_code(&actions), 0);
}

#[test]
fn launch_asks_for_the_input_file() {
    assert_eq!(
        launch(&strings(&["cat", "dog", "in.txt", "out.txt"])),
        (
            Stage::Reading(arguments("cat", "dog", "in.txt", "out.txt")),
            Action::ReadInput { path: "in.txt".to_string() },
        )
    );
}

#[test]
fn launch_fails_on_a_wrong_count() {
    assert_eq!(
        launch(&strings(&["cat"])),
        (Stage::Done, Action::Exit(Outcome::Failed(Failure::Usage { got: 1 })))
    );
}

#[test]
fn after_replace_asks_for_the_output_file() {
    assert_eq!(
        after_replace(arguments("t", "r", "in", "out"), Ok("new text".to_string())),
        (
            Stage::Writing(arguments("t", "r", "in", "out")),
            Action::WriteOutput { path: "out".to_string(), content: "new text".to_string() },
        )
    );
}

#[test]
fn after_replace_fails_on_a_pattern_error() {
    assert_eq!(
        after_replace(
            arguments("t", "r", "in", "out"),
            Err(PatternError { message: "bad pattern".to_string() })
        ),
        (
            Stage::Done,
            Action::Exit(Outcome::Failed(Failure::Pattern { reason: "bad pattern".to_string() })),
        )
    );
}

#[test]
fn step_replaces_when_the_input_is_read() {
    assert_eq!(
        step(
            Stage::Reading(arguments("o", "0", "in", "out")),
            Event::InputRead { content: "foo boo".to_string() }
        ),
        Some((
            Stage::Writing(arguments("o", "0", "in", "out")),
            Action::WriteOutput { path: "out".to_string(), content: "f00 b00".to_string() },
        ))
    );
}

#[test]
fn step_succeeds_when_the_output_is_written() {
    assert_eq!(
        step(Stage::Writing(arguments("o", "0", "in", "out")), Event::OutputWritten),
        Some((Stage::Done, Action::Exit(Outcome::Success)))
    );
}

#[test]
fn a_stage_takes_no_step_on_an_event_it_does_not_await() {
    let reading = Stage::Reading(arguments("a", "b", "in", "out"));
    let writing = Stage::Writing(arguments("a", "b", "in", "out"));
    let launched = Event::Launched { args: strings(&["a", "b", "in", "out"]) };
    let read = Event::InputRead { content: "text".to_string() };
    let unreadable = Event::InputUnreadable { reason: "r".to_string() };
    let unwritable = Event::OutputUnwritable { reason: "r".to_string() };
    assert_eq!(step(Stage::Start, read.clone()), None);
    assert_eq!(step(Stage::Start, unreadable.clone()), None);
    assert_eq!(step(Stage::Start, Event::OutputWritten), None);
    assert_eq!(step(Stage::Start, unwritable.clone()), None);
    assert_eq!(step(reading.clone(), launched.clone()), None);
    assert_eq!(step(reading.clone(), Event::OutputWritten), None);
    assert_eq!(step(reading, unwritable), None);
    assert_eq!(step(writing.clone(), launched.clone()), None);
    assert_eq!(step(writing.clone(), read.clone()), None);
    assert_eq!(step(writing, unreadable.clone()), None);
    assert_eq!(step(Stage::Done, launched), None);
    assert_eq!(step(Stage::Done, read), None);
    assert_eq!(step(Stage::Done, unreadable), None);
    assert_eq!(step(Stage::Done, Event::OutputWritten), None);
}

#[test]
fn exit_codes_of_the_outcomes() {
    assert_eq!(Outcome::Success.exit_code(), 0);
    assert_eq!(Outcome::Failed(Failure::Usage { got: 0 }).exit_code(), 1);
    assert_eq!(Outcome::Failed(Failure::Pattern { reason: String::new() }).exit_code(), 1);
    assert_eq!(
        Outcome::Failed(Failure::Read { filename: String::new(), reason: String::new() })
            .exit_code(),
        1
    );
    assert_eq!(
        Outcome::Failed(Failure::Write { filename: String::new(), reason: String::new() })
            .exit_code(),
        1
    );
}
