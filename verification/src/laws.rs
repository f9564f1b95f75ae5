//! What holds of every run and of every call, proved from the definitions
//! that the contracts of the library are stated in.

use crate::builtins::{
    builtin_table, call_step, command_words, flag_at, is_value, leading, leaves_at, marshalled,
    run_step, subprocess_run_step, BuiltinStepView, EvaluationView,
};
use crate::engine::{
    completion, direct_plan, exit_code, shell_flag, shell_plan, shell_program, Platform,
    ProcessOutputView, SpawnRequestView,
};
use crate::errors::{
    category_label, classify, ErrorCategory, ErrorView, OsErrorKind, OsErrorView,
};
use crate::registry::BuiltinFunction;
use crate::text::{decoded, is_blank};
use crate::types::{CompletedProcessView, RunOptions};
use crate::values::{ExpressionResultView, ExpressionView};
use vstd::prelude::*;

verus! {

/// Whether `needle` occurs in `haystack`.
pub open spec fn occurs_in(needle: Seq<char>, haystack: Seq<char>) -> bool {
    exists|i: int|
        0 <= i && i + needle.len() <= haystack.len() && #[trigger] haystack.subrange(
            i,
            i + needle.len() as int,
        ) == needle
}

/// The first two characters of the display string of a failure are those of
/// its category's label, and every label has two.
proof fn lemma_display_head(error: ErrorView)
    ensures
        category_label(error.category).len() >= 2,
        error.display().len() == category_label(error.category).len() + 2 + error.detail.len(),
        error.display()[0] == category_label(error.category)[0],
        error.display()[1] == category_label(error.category)[1],
        error.detail == error.display().subrange(
            category_label(error.category).len() as int + 2,
            error.display().len() as int,
        ),
{
    reveal_strlit("Invalid arguments");
    reveal_strlit("Command not found");
    reveal_strlit("Permission denied");
    reveal_strlit("Execution failed");
    reveal_strlit("I/O Error");
    reveal_strlit("Output capture error");
    reveal_strlit(": ");
    assert(error.detail =~= error.display().subrange(
        category_label(error.category).len() as int + 2,
        error.display().len() as int,
    ));
}

/// The labels of two categories differ in one of their first two characters.
proof fn lemma_labels_differ(a: ErrorCategory, b: ErrorCategory)
    requires
        a != b,
    ensures
        category_label(a)[0] != category_label(b)[0] || category_label(a)[1] != category_label(
            b,
        )[1],
{
    reveal_strlit("Invalid arguments");
    reveal_strlit("Command not found");
    reveal_strlit("Permission denied");
    reveal_strlit("Execution failed");
    reveal_strlit("I/O Error");
    reveal_strlit("Output capture error");
}

/// The display string of a failure loses nothing: two failures with the same
/// display string are the same failure.
pub proof fn lemma_display_is_lossless(a: ErrorView, b: ErrorView)
    requires
        a.display() == b.display(),
    ensures
        a == b,
{
    lemma_display_head(a);
    lemma_display_head(b);
    if a.category != b.category {
        lemma_labels_differ(a.category, b.category);
    }
}

/// What a direct run returns, given what the operating system reports of the
/// launch it asks for.
pub open spec fn run_outcome(
    command: Seq<Seq<char>>,
    options: RunOptions,
    report: Result<ProcessOutputView, OsErrorView>,
) -> Result<CompletedProcessView, ErrorView> {
    match direct_plan(command, options) {
        Ok(request) => completion(request, report),
        Err(error) => Err(error),
    }
}

/// What a shell-mediated run returns, given what the operating system
/// reports of the launch it asks for.
pub open spec fn shell_run_outcome(
    command: Seq<char>,
    options: RunOptions,
    platform: Platform,
    report: Result<ProcessOutputView, OsErrorView>,
) -> Result<CompletedProcessView, ErrorView> {
    match shell_plan(command, options, platform) {
        Ok(request) => completion(request, report),
        Err(error) => Err(error),
    }
}

/// A capturing run of a command that exits with code 0 returns code 0 and, as
/// its output, what the child wrote, decoded as text.
pub proof fn lemma_capturing_run_returns_what_was_written(
    command: Seq<Seq<char>>,
    shell: bool,
    output: ProcessOutputView,
)
    requires
        command.len() > 0,
        output.code == Some(0i32),
    ensures
        run_outcome(command, RunOptions { shell, capture_output: true }, Ok(output)) == Ok::<
            CompletedProcessView,
            ErrorView,
        >(
            CompletedProcessView {
                returncode: 0,
                stdout: Some(decoded(output.stdout)),
                stderr: Some(decoded(output.stderr)),
            },
        ),
{
}

/// A run whose child exited is no failure, whatever the exit code, and both
/// outputs are there if capture was asked for and missing if it was not.
pub proof fn lemma_output_is_there_iff_captured(
    command: Seq<Seq<char>>,
    options: RunOptions,
    output: ProcessOutputView,
)
    requires
        command.len() > 0,
    ensures
        run_outcome(command, options, Ok(output)) matches Ok(process) && process.returncode
            == exit_code(output.code) && (process.stdout is Some <==> options.capture_output) && (
        process.stderr is Some <==> options.capture_output),
{
}

/// The same holds of a shell-mediated run.
pub proof fn lemma_shell_output_is_there_iff_captured(
    command: Seq<char>,
    options: RunOptions,
    platform: Platform,
    output: ProcessOutputView,
)
    requires
        !is_blank(command),
    ensures
        shell_run_outcome(command, options, platform, Ok(output)) matches Ok(process)
            && process.returncode == exit_code(output.code) && (process.stdout is Some
            <==> options.capture_output) && (process.stderr is Some <==> options.capture_output),
{
}

/// A run of the empty command fails with invalid arguments, whatever the
/// options and whatever the operating system would report, and the display
/// string of the failure holds the word "empty".
pub proof fn lemma_empty_command_is_rejected(
    options: RunOptions,
    report: Result<ProcessOutputView, OsErrorView>,
)
    ensures
        run_outcome(Seq::empty(), options, report) matches Err(error) && error.category
            == ErrorCategory::InvalidArguments && occurs_in("empty"@, error.display()),
{
    reveal_strlit("empty");
    reveal_strlit("Command cannot be empty");
    reveal_strlit("Invalid arguments");
    reveal_strlit(": ");
    let error = run_outcome(Seq::empty(), options, report)->Err_0;
    assert(error.display().subrange(37, 37 + "empty"@.len() as int) =~= "empty"@);
}

/// A shell-mediated run of the empty command line, or of one that is all
/// white space, fails in the same way.
pub proof fn lemma_blank_shell_command_is_rejected(
    command: Seq<char>,
    options: RunOptions,
    platform: Platform,
    report: Result<ProcessOutputView, OsErrorView>,
)
    requires
        is_blank(command),
    ensures
        shell_run_outcome(command, options, platform, report) matches Err(error) && error.category
            == ErrorCategory::InvalidArguments && occurs_in("empty"@, error.display()),
        is_blank(Seq::empty()),
{
    reveal_strlit("empty");
    reveal_strlit("Shell command cannot be empty");
    reveal_strlit("Invalid arguments");
    reveal_strlit(": ");
    let error = shell_run_outcome(command, options, platform, report)->Err_0;
    assert(error.display().subrange(43, 43 + "empty"@.len() as int) =~= "empty"@);
}

/// A run of a command that the operating system cannot find fails with
/// command not found, and the display string of the failure holds both
/// "Command not found" and the name of the command.
pub proof fn lemma_missing_command_is_named(
    command: Seq<Seq<char>>,
    options: RunOptions,
    message: Seq<char>,
)
    requires
        command.len() > 0,
    ensures
        run_outcome(
            command,
            options,
            Err(OsErrorView { kind: OsErrorKind::NotFound, message }),
        ) matches Err(error) && error == (ErrorView {
            category: ErrorCategory::CommandNotFound,
            detail: command[0],
        }) && error.display() == "Command not found"@ + ": "@ + command[0] && occurs_in(
            "Command not found"@,
            error.display(),
        ) && occurs_in(command[0], error.display()),
{
    let error = ErrorView { category: ErrorCategory::CommandNotFound, detail: command[0] };
    let label = "Command not found"@;
    let head = label + ": "@;
    assert(error.display().subrange(0, 0 + label.len() as int) =~= label);
    assert(error.display().subrange(
        head.len() as int,
        head.len() as int + command[0].len() as int,
    )
        =~= command[0]);
}

/// Two runs with the same arguments, of which the operating system reports
/// the same, return the same.
pub proof fn lemma_runs_are_repeatable(
    first_command: Seq<Seq<char>>,
    first_options: RunOptions,
    first_report: Result<ProcessOutputView, OsErrorView>,
    second_command: Seq<Seq<char>>,
    second_options: RunOptions,
    second_report: Result<ProcessOutputView, OsErrorView>,
)
    requires
        first_command == second_command,
        first_options == second_options,
        first_report == second_report,
    ensures
        run_outcome(first_command, first_options, first_report) == run_outcome(
            second_command,
            second_options,
            second_report,
        ),
{
}

/// A failure of a run never fails the call of the built-in function: it
/// comes back as a value that wraps the failure's display string.
pub proof fn lemma_failure_of_a_run_is_a_value(request: SpawnRequestView, error: OsErrorView)
    ensures
        marshalled(completion(request, Err(error))) == ExpressionResultView::Value(
            ExpressionView::CErr(
                Box::new(
                    ExpressionView::CString(
                        classify(error, request.program).display(),
                    ),
                ),
            ),
        ),
{
}

/// Entering `subprocess.run` again changes nothing: the table of the
/// built-in functions holds one entry, under that name.
pub proof fn lemma_registration_is_idempotent()
    ensures
        builtin_table().insert("subprocess.run"@, BuiltinFunction::SubprocessRun)
            == builtin_table(),
        builtin_table().dom() == set!["subprocess.run"@],
{
    assert(builtin_table().insert("subprocess.run"@, BuiltinFunction::SubprocessRun)
        =~= builtin_table());
    assert(builtin_table().dom() =~= set!["subprocess.run"@]);
}

/// A name that the table does not hold is no error: the answer is nothing,
/// whatever the arguments are.
pub proof fn lemma_unknown_name_is_no_builtin(
    table: Map<Seq<char>, BuiltinFunction>,
    name: Seq<char>,
    arg_count: nat,
    outcomes: Seq<EvaluationView>,
    platform: Platform,
)
    requires
        !table.contains_key(name),
    ensures
        call_step(table, name, arg_count, outcomes, platform) == Ok::<
            Option<BuiltinStepView>,
            Seq<char>,
        >(None),
{
}

/// A call with no argument or with more than three fails once its arguments
/// have been evaluated to values, whatever the values are.
pub proof fn lemma_wrong_arity_fails_the_call(
    arg_count: nat,
    outcomes: Seq<EvaluationView>,
    platform: Platform,
)
    requires
        arg_count == 0 || arg_count > 3,
        outcomes.len() == arg_count,
        forall|i: int| 0 <= i < outcomes.len() ==> is_value(#[trigger] outcomes[i]),
    ensures
        subprocess_run_step(arg_count, outcomes, platform) == Err::<BuiltinStepView, Seq<char>>(
            "subprocess.run() takes 1 to 3 arguments"@,
        ),
{
    assert(forall|i: int| !leaves_at(leading(outcomes, arg_count), i));
}

/// A call whose command is neither a list nor a string fails, whatever the
/// other arguments are, and the complaint says what the command has to be.
pub proof fn lemma_wrong_command_fails_the_call(values: Seq<ExpressionView>, platform: Platform)
    requires
        1 <= values.len() <= 3,
        !(values[0] is ListValue),
        !(values[0] is CString),
    ensures
        run_step(values, platform) matches Err(complaint) && occurs_in(
            "list of strings or a string"@,
            complaint,
        ),
{
    reveal_strlit("list of strings or a string");
    reveal_strlit("subprocess.run() first argument must be a list of strings or a string");
    let complaint = "subprocess.run() first argument must be a list of strings or a string"@;
    assert(complaint.subrange(42, 42 + "list of strings or a string"@.len() as int)
        =~= "list of strings or a string"@);
}

/// A call with a command and with a shell flag that is no boolean fails, and
/// the complaint holds the word "boolean".
pub proof fn lemma_wrong_shell_flag_fails_the_call(values: Seq<ExpressionView>, platform: Platform)
    requires
        2 <= values.len() <= 3,
        command_words(values[0]) is Ok,
        !(values[1] is CTrue),
        !(values[1] is CFalse),
    ensures
        run_step(values, platform) matches Err(complaint) && occurs_in("boolean"@, complaint),
{
    reveal_strlit("boolean");
    reveal_strlit("subprocess.run() shell argument must be a boolean");
    let complaint = "subprocess.run() shell argument must be a boolean"@;
    assert(complaint.subrange(42, 42 + "boolean"@.len() as int) =~= "boolean"@);
}

/// A command given as one string goes to the platform's shell, as one
/// argument and unchanged, whether the shell is selected or not.
pub proof fn lemma_string_command_goes_to_the_shell(
    values: Seq<ExpressionView>,
    platform: Platform,
    command: Seq<char>,
    shell: bool,
    capture_output: bool,
)
    requires
        1 <= values.len() <= 3,
        values[0] == ExpressionView::CString(command),
        flag_at(values, 1, "subprocess.run() shell argument must be a boolean"@) == Ok::<
            bool,
            Seq<char>,
        >(shell),
        flag_at(values, 2, "subprocess.run() capture_output argument must be a boolean"@) == Ok::<
            bool,
            Seq<char>,
        >(capture_output),
        !is_blank(command),
    ensures
        run_step(values, platform) matches Ok(BuiltinStepView::Launch(request)) && Ok::<
            SpawnRequestView,
            ErrorView,
        >(request) == shell_plan(command, RunOptions { shell, capture_output }, platform)
            && request.program == shell_program(platform) && request.args == seq![
            shell_flag(platform),
            command,
        ],
{
}

/// A call asks for the evaluation of an argument only while arguments are
/// left: of the next one after those that have been evaluated, all of which
/// ended with values. So a call is over once each argument has been
/// evaluated, if not before.
pub proof fn lemma_call_evaluates_arguments_in_turn(
    arg_count: nat,
    outcomes: Seq<EvaluationView>,
    platform: Platform,
    place: nat,
)
    requires
        subprocess_run_step(arg_count, outcomes, platform) == Ok::<BuiltinStepView, Seq<char>>(
            BuiltinStepView::Evaluate(place),
        ),
    ensures
        place == outcomes.len(),
        place < arg_count,
        forall|i: int| 0 <= i < outcomes.len() ==> is_value(#[trigger] outcomes[i]),
{
    let seen = leading(outcomes, arg_count);
    assert(!(exists|i: int| leaves_at(seen, i)));
    lemma_all_values(seen, seen.len() as int);
}

/// Where no evaluation is the first to end without a value, all ended with
/// values.
proof fn lemma_all_values(outcomes: Seq<EvaluationView>, upto: int)
    requires
        0 <= upto <= outcomes.len(),
        forall|i: int| !leaves_at(outcomes, i),
    ensures
        forall|i: int| 0 <= i < upto ==> is_value(#[trigger] outcomes[i]),
    decreases upto,
{
    if upto > 0 {
        lemma_all_values(outcomes, upto - 1);
        assert(!leaves_at(outcomes, upto - 1));
    }
}

} // verus!
