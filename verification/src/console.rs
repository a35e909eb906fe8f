//! The lines that a run writes to the console.

use vstd::prelude::*;
use vstd::string::*;

use crate::text::{decimal, push_decimal};

verus! {

/// How the program is called.
pub const USAGE: &'static str =
    "Usage: ./dd-unqueried-metrics --api-key=<API_KEY> --app-key=<APP_KEY>";

/// What is said before the keys are asked for; an empty line follows it.
pub const PROMPT_NOTICE: &'static str =
    "api_key and app-key parameters not provided, prompting user...\n";

/// The question for the API key.
pub const API_KEY_PROMPT: &'static str = "Please enter your Datadog API Key:";

/// The question for the application key.
pub const APP_KEY_PROMPT: &'static str = "Please enter your Datadog Application Key:";

/// What is said before the request is sent.
pub const PROGRESS: &'static str = "Loading unqueried metrics...";

/// What stands in front of an identifier when its row is written.
pub const ECHO_PREFIX: &'static str = "Writing Metric ID: ";

/// What follows the count in the last line of a run.
pub const SUMMARY_SUFFIX: &'static str = " metrics found and exported.";

/// `text` as the standard library writes a string for debugging: in double
/// quotes, with escapes for what would not show.
pub uninterp spec fn debug_form(text: Seq<char>) -> Seq<char>;

/// Has the standard library write `text` for debugging. This is the `Debug`
/// formatting of `str`, in its alternate form, which for a string is the plain
/// one.
#[verifier::external_body]
fn debug_quoted(text: &str) -> (r: String)
    ensures
        r@ == debug_form(text@),
{
    format!("{:#?}", text)
}

/// The line that is printed when the row of `id` is written.
pub open spec fn echo_text(id: Seq<char>) -> Seq<char> {
    ECHO_PREFIX@ + debug_form(id)
}

/// The last line of a run that exported `count` records.
pub open spec fn summary_text(count: nat) -> Seq<char> {
    decimal(count) + SUMMARY_SUFFIX@
}

/// Writes the line that is printed when the row of `id` is written.
pub fn echo_line(id: &str) -> (r: String)
    ensures
        r@ == echo_text(id@),
{
    let mut line = String::from_str(ECHO_PREFIX);
    let quoted = debug_quoted(id);
    line.append(quoted.as_str());
    line
}

/// Writes the last line of a run that exported `count` records.
pub fn summary_line(count: usize) -> (r: String)
    ensures
        r@ == summary_text(count as nat),
{
    let mut line = String::new();
    push_decimal(&mut line, count as u64);
    line.append(SUMMARY_SUFFIX);
    assert(line@ =~= summary_text(count as nat));
    line
}

} // verus!
