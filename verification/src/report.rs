//! The report on a process's context: its invocation arguments and the
//! variable that configures its log level, each on a labelled line.

use vstd::prelude::*;
use vstd::string::StringExecFns;
use crate::env::{
    filtered_variables, is_set_to, lemma_set_is_found, lemma_unnamed, lookup_variable,
    named_variable, with_prefix,
};
use crate::render::{
    debug_lookup, debug_quoted, debug_strings, debug_variables, lemma_occurs_in_middle,
    lemma_strings_text_shows_item, lookup_text, occurs_at, occurs_in, strings_text,
    variable_text, variables_text,
};

verus! {

/// Name of the variable that configures the log level.
pub const LOG_VARIABLE: &'static str = "RUST_LOG";

/// Label in front of the outcome of looking that variable up.
pub const LOG_LABEL: &'static str = "called with RUST_LOG: ";

/// Prefix of the variable names that the diagnostic report shows.
pub const DIAGNOSTIC_PREFIX: &'static str = "FOO";

/// Label in front of the variables of the diagnostic report.
pub const DIAGNOSTIC_LABEL: &'static str = "called with env vars: ";

/// A line of output: the label, the body and a line feed.
pub open spec fn line_text(label: Seq<char>, body: Seq<char>) -> Seq<char> {
    label + body + "\n"@
}

/// Writes one labelled line.
pub fn labelled_line(label: &str, body: &str) -> (text: String)
    ensures
        text@ == line_text(label@, body@),
{
    let mut text = label.to_owned();
    text.append(body);
    text.append("\n");
    text
}

/// The report around two already rendered bodies: the line of the arguments
/// under the caller's label, the line of the log-level lookup, and an empty
/// line.
pub open spec fn composed_text(label: Seq<char>, arguments: Seq<char>, lookup: Seq<char>) -> Seq<
    char,
> {
    line_text(label, arguments) + line_text(LOG_LABEL@, lookup) + "\n"@
}

/// Puts the report together from the rendered arguments and the rendered
/// outcome of the lookup.
pub fn compose_report(label: &str, arguments: &str, lookup: &str) -> (text: String)
    ensures
        text@ == composed_text(label@, arguments@, lookup@),
{
    let mut text = labelled_line(label, arguments);
    let second = labelled_line(LOG_LABEL, lookup);
    text.append(second.as_str());
    text.append("\n");
    text
}

/// What the report says for the arguments `args` and the snapshot `env`.
pub open spec fn report_text(
    label: Seq<char>,
    args: Seq<Seq<char>>,
    env: Seq<(Seq<char>, Seq<char>)>,
) -> Seq<char> {
    composed_text(label, strings_text(args), lookup_text(named_variable(env, LOG_VARIABLE@)))
}

/// Renders the report: the arguments in debug form behind `label`, then
/// the outcome of looking the log-level variable up in `env`, then an empty
/// line.
pub fn report(label: &str, args: &Vec<String>, env: &Vec<(String, String)>) -> (text: String)
    ensures
        text@ == report_text(label@, args.deep_view(), env.deep_view()),
{
    let arguments = debug_strings(args);
    let lookup = debug_lookup(lookup_variable(env, LOG_VARIABLE));
    compose_report(label, arguments.as_str(), lookup.as_str())
}

/// The report shows the whole argument list: the debug form of the list
/// stands right behind the label, and the debug form of every argument, the
/// program's own name at the front included, stands in the report.
pub proof fn lemma_report_shows_arguments(
    label: Seq<char>,
    args: Seq<Seq<char>>,
    env: Seq<(Seq<char>, Seq<char>)>,
)
    ensures
        occurs_at(strings_text(args), report_text(label, args, env), label.len() as int),
        forall|i: int|
            0 <= i < args.len() ==> occurs_in(
                debug_quoted(#[trigger] args[i]),
                report_text(label, args, env),
            ),
{
    let list = strings_text(args);
    let whole = report_text(label, args, env);
    let rest = "\n"@ + line_text(LOG_LABEL@, lookup_text(named_variable(env, LOG_VARIABLE@)))
        + "\n"@;
    assert(whole =~= label + list + rest);
    assert(whole.subrange(label.len() as int, label.len() as int + list.len()) =~= list);
    assert forall|i: int| 0 <= i < args.len() implies occurs_in(
        debug_quoted(#[trigger] args[i]),
        whole,
    ) by {
        lemma_strings_text_shows_item(args, i);
        lemma_occurs_in_middle(debug_quoted(args[i]), label, list, rest);
    }
}

/// While the log-level variable is unset, the report's second line says
/// `None`.
pub proof fn lemma_report_of_unset(
    label: Seq<char>,
    args: Seq<Seq<char>>,
    env: Seq<(Seq<char>, Seq<char>)>,
)
    requires
        forall|i: int| 0 <= i < env.len() ==> env[i].0 != LOG_VARIABLE@,
    ensures
        report_text(label, args, env) == composed_text(label, strings_text(args), "None"@),
{
    lemma_unnamed(env, LOG_VARIABLE@);
}

/// While the log-level variable is set to `value`, the report's second line
/// shows `Some` around the variable's name paired with `value`.
pub proof fn lemma_report_of_set(
    label: Seq<char>,
    args: Seq<Seq<char>>,
    env: Seq<(Seq<char>, Seq<char>)>,
    value: Seq<char>,
)
    requires
        is_set_to(env, LOG_VARIABLE@, value),
    ensures
        report_text(label, args, env) == composed_text(
            label,
            strings_text(args),
            "Some("@ + variable_text((LOG_VARIABLE@, value)) + ")"@,
        ),
{
    lemma_set_is_found(env, LOG_VARIABLE@, value);
}

/// Two captures that hold the same arguments and the same variables give
/// the same report, character for character.
pub proof fn lemma_report_repeatable(
    label: &str,
    first_args: Vec<String>,
    first_env: Vec<(String, String)>,
    second_args: Vec<String>,
    second_env: Vec<(String, String)>,
)
    requires
        first_args.deep_view() == second_args.deep_view(),
        first_env.deep_view() == second_env.deep_view(),
    ensures
        report_text(label@, first_args.deep_view(), first_env.deep_view()) == report_text(
            label@,
            second_args.deep_view(),
            second_env.deep_view(),
        ),
{
}

/// What the diagnostic report says for the snapshot `env`.
pub open spec fn diagnostic_text(env: Seq<(Seq<char>, Seq<char>)>) -> Seq<char> {
    line_text(DIAGNOSTIC_LABEL@, variables_text(with_prefix(env, DIAGNOSTIC_PREFIX@)))
}

/// Renders the diagnostic report: one line with the variables of `env`
/// whose name begins with the diagnostic prefix, in debug form.
pub fn diagnostic_report(env: &Vec<(String, String)>) -> (text: String)
    ensures
        text@ == diagnostic_text(env.deep_view()),
{
    let kept = filtered_variables(env, DIAGNOSTIC_PREFIX);
    let body = debug_variables(&kept);
    labelled_line(DIAGNOSTIC_LABEL, body.as_str())
}

} // verus!
