//! The replacer: compile a pattern, then replace all of its matches in a
//! text. The regular expression engine is the `regex` crate; what it computes
//! is named here, not restated.

use vstd::prelude::*;

verus! {

/// A compiled regular expression of the `regex` crate. Nothing of its inside
/// is visible to proofs.
#[verifier::external_type_specification]
#[verifier::external_body]
pub struct ExRegex(regex::Regex);

/// The error with which the `regex` crate refuses a pattern.
#[verifier::external_type_specification]
#[verifier::external_body]
pub struct ExRegexError(regex::Error);

/// What `regex::Regex::new` returns for `pattern`: the compiled expression,
/// or the engine's error where the pattern is refused. The engine measures
/// its size limit in bytes of its own state, so for a pattern close to the
/// limit the result is that of the target the library was built for.
pub uninterp spec fn compiled(pattern: Seq<char>) -> Result<regex::Regex, regex::Error>;

/// What `regex::Regex::is_match` returns for an expression and a text:
/// whether the expression has a match anywhere in the text.
pub uninterp spec fn has_match(expression: regex::Regex, text: Seq<char>) -> bool;

/// What `regex::Regex::replace_all` returns for an expression, a text in
/// which it has a match, and a replacement template: the text with every
/// match replaced by the expanded template.
pub uninterp spec fn replaced(
    expression: regex::Regex,
    text: Seq<char>,
    template: Seq<char>,
) -> Seq<char>;

/// The text in which `regex::Error` shows itself through `Debug`.
pub uninterp spec fn error_text(error: regex::Error) -> Seq<char>;

/// Calls `regex::Regex::new`. The result, compiled expression or error,
/// depends on the pattern alone and goes by the name `compiled`.
#[verifier::external_body]
fn compile(pattern: &str) -> (result: Result<regex::Regex, regex::Error>)
    ensures
        result == compiled(pattern@),
{
    regex::Regex::new(pattern)
}

/// Calls `regex::Regex::replace_all` with a string as the replacement, so
/// that `$` references in it are expanded, and takes the result as an owned
/// string. As the crate documents, a text in which the expression has no
/// match comes back unchanged; what comes back else goes by the name
/// `replaced`.
#[verifier::external_body]
fn replace_all(expression: &regex::Regex, text: &str, template: &str) -> (result: String)
    ensures
        result@ == if has_match(*expression, text@) {
            replaced(*expression, text@, template@)
        } else {
            text@
        },
{
    expression.replace_all(text, template).into_owned()
}

/// Calls `regex::Regex::is_match`, which tells whether the expression has a
/// match anywhere in the text. The result goes by the name `has_match`.
#[verifier::external_body]
fn is_match(expression: &regex::Regex, text: &str) -> (found: bool)
    ensures
        found == has_match(*expression, text@),
{
    expression.is_match(text)
}

/// Formats a `regex::Error` with `Debug`, the form in which the tool reports
/// it. The result goes by the name `error_text`.
#[verifier::external_body]
fn describe(error: &regex::Error) -> (text: String)
    ensures
        text@ == error_text(*error),
{
    format!("{:?}", error)
}

/// Why a pattern could not be used: the engine's description of what is
/// wrong with it.
#[derive(Clone, Debug, PartialEq, Eq)]
pub struct PatternError {
    pub message: String,
}

impl View for PatternError {
    type V = Seq<char>;

    open spec fn view(&self) -> Seq<char> {
        self.message@
    }
}

/// The result of replacing in `text` every match of the pattern `target` by
/// the expanded `template`: the new text, or the description of the
/// pattern's fault.
pub open spec fn replace_spec(target: Seq<char>, template: Seq<char>, text: Seq<char>) -> Result<
    Seq<char>,
    Seq<char>,
> {
    match compiled(target) {
        Ok(expression) => Ok(
            if has_match(expression, text) {
                replaced(expression, text, template)
            } else {
                text
            },
        ),
        Err(error) => Err(error_text(error)),
    }
}

/// Replaces every non-overlapping match of the pattern `target` in `text` by
/// `replacement`, in which `$` references stand for captured groups. The text
/// itself is left as it is; the result is a new string. The call fails
/// exactly when the pattern does not compile.
pub fn replace(target: &str, replacement: &str, text: &str) -> (result: Result<
    String,
    PatternError,
>)
    ensures
        result is Ok <==> compiled(target@) is Ok,
        match result {
            Ok(output) => replace_spec(target@, replacement@, text@) == Ok::<
                Seq<char>,
                Seq<char>,
            >(output@),
            Err(error) => replace_spec(target@, replacement@, text@) == Err::<
                Seq<char>,
                Seq<char>,
            >(error@),
        },
{
    match compile(target) {
        Ok(expression) => Ok(replace_all(&expression, text, replacement)),
        Err(error) => Err(PatternError { message: describe(&error) }),
    }
}

/// Whether the pattern `target` compiles and has a match somewhere in `text`.
pub open spec fn matches_in(target: Seq<char>, text: Seq<char>) -> bool {
    compiled(target) matches Ok(expression) && has_match(expression, text)
}

/// Tells whether the pattern `target` has a match anywhere in `text`: where
/// it has none, `replace` gives the text back as it is. The call fails
/// exactly when the pattern does not compile, as `replace` does.
pub fn contains_match(target: &str, text: &str) -> (result: Result<bool, PatternError>)
    ensures
        result is Ok <==> compiled(target@) is Ok,
        match result {
            Ok(found) => found == matches_in(target@, text@),
            Err(error) => compiled(target@) is Err && error@ == error_text(
                compiled(target@)->Err_0,
            ),
        },
{
    match compile(target) {
        Ok(expression) => Ok(is_match(&expression, text)),
        Err(error) => Err(PatternError { message: describe(&error) }),
    }
}

/// Replacing in a text in which a valid pattern has no match gives the text
/// itself, whatever the template.
pub proof fn lemma_replace_without_match(target: Seq<char>, template: Seq<char>, text: Seq<char>)
    ensures
        compiled(target) is Ok && !matches_in(target, text) ==> replace_spec(target, template, text)
            == Ok::<Seq<char>, Seq<char>>(text),
{
}

/// Replacing a second time changes nothing where the pattern has no match
/// in the result of the first time: the second result is the first.
pub proof fn lemma_replace_twice(target: Seq<char>, template: Seq<char>, text: Seq<char>)
    ensures
        replace_spec(target, template, text) matches Ok(once) ==> (!matches_in(target, once)
            ==> replace_spec(target, template, once) == replace_spec(target, template, text)),
{
    if let Ok(once) = replace_spec(target, template, text) {
        lemma_replace_without_match(target, template, once);
    }
}

} // verus!
