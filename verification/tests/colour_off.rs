use quickreplace::failure::Failure;
use quickreplace::pipeline::Outcome;
use quickreplace::report::usage;

#[test]
fn usage_is_plain_where_colours_are_off() {
    text_colorizer::control::set_override(false);
    assert_eq!(
        usage(),
        "quickreplace - change occurrences of one string into another\n\
         Usage: quickreplace <target> <replacement> <INPUT> <OUTPUT>\n"
    );
}

#[test]
fn report_is_plain_where_colours_are_off() {
    text_colorizer::control::set_override(false);
    assert_eq!(
        Failure::Pattern { reason: "why".to_string() }.report(),
        "Error: failed to replace text: why"
    );
    assert_eq!(
        Outcome::Failed(Failure::Usage { got: 3 }).report(),
        "quickreplace - change occurrences of one string into another\n\
         Usage: quickreplace <target> <replacement> <INPUT> <OUTPUT>\n\
         Error: wrong number of arguments: expected 4, got 3\n"
    );
}

#[test]
fn a_success_reports_nothing() {
    text_colorizer::control::set_override(false);
    assert_eq!(Outcome::Success.report(), "");
}
