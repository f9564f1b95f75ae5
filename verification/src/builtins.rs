//! The bridge between the interpreter and the execution engine.
//!
//! A call of a built-in function proceeds in steps. The host evaluates the
//! call's arguments one after the other and performs the launch; this module
//! decides, from what has come back so far, what is to happen next.

use crate::engine::{
    completion, direct_plan, run_command, run_shell_command, shell_plan, Platform, ProcessOutput,
    SpawnRequest, SpawnRequestView,
};
use crate::errors::{ErrorView, OsError, SubprocessError};
use crate::registry::{BuiltinFunction, BuiltinRegistry};
use crate::types::{result_view, CompletedProcess, CompletedProcessView, RunOptions};
use crate::values::{
    expression_view, expression_views, Expression, ExpressionResult, ExpressionResultView,
    ExpressionView, Name,
};
use vstd::prelude::*;

verus! {

/// How the evaluation of one argument ended: with a value or a non-local
/// exit, or with a failure of the evaluator.
pub type Evaluation = Result<ExpressionResult, String>;

/// The end of an evaluation as a mathematical value.
pub type EvaluationView = Result<ExpressionResultView, Seq<char>>;

/// What is to happen next in a call of a built-in function.
#[derive(Debug, PartialEq)]
pub enum BuiltinStep {
    /// The host evaluates the argument at this place and reports how it ended.
    Evaluate(usize),
    /// The host performs this launch and reports what came of it.
    Launch(SpawnRequest),
    /// The call is over and this is its outcome.
    Return(ExpressionResult),
}

/// A step as a mathematical value.
pub enum BuiltinStepView {
    Evaluate(nat),
    Launch(SpawnRequestView),
    Return(ExpressionResultView),
}

impl View for BuiltinStep {
    type V = BuiltinStepView;

    open spec fn view(&self) -> BuiltinStepView {
        match self {
            BuiltinStep::Evaluate(i) => BuiltinStepView::Evaluate(*i as nat),
            BuiltinStep::Launch(request) => BuiltinStepView::Launch(request@),
            BuiltinStep::Return(outcome) => BuiltinStepView::Return(outcome@),
        }
    }
}

/// The views of a sequence of evaluations, one for one.
pub open spec fn evaluation_views(outcomes: Seq<Evaluation>) -> Seq<EvaluationView> {
    Seq::new(outcomes.len(), |i: int| result_view(outcomes[i]))
}

/// Whether an evaluation ended with a value.
pub open spec fn is_value(outcome: EvaluationView) -> bool {
    outcome matches Ok(ExpressionResultView::Value(_))
}

/// The value that an evaluation ended with.
pub open spec fn value_of(outcome: EvaluationView) -> ExpressionView
    recommends
        is_value(outcome),
{
    match outcome {
        Ok(ExpressionResultView::Value(v)) => v,
        _ => ExpressionView::CTrue,
    }
}

/// Whether `i` is the place of the first evaluation that did not end with a
/// value.
pub open spec fn leaves_at(outcomes: Seq<EvaluationView>, i: int) -> bool {
    &&& 0 <= i < outcomes.len()
    &&& !is_value(outcomes[i])
    &&& forall|j: int| 0 <= j < i ==> is_value(#[trigger] outcomes[j])
}

/// The place of the first evaluation that did not end with a value, where
/// there is one.
pub open spec fn leaving_place(outcomes: Seq<EvaluationView>) -> int {
    choose|i: int| leaves_at(outcomes, i)
}

/// There is at most one such place.
pub proof fn lemma_leaving_place(outcomes: Seq<EvaluationView>, i: int)
    requires
        leaves_at(outcomes, i),
    ensures
        leaving_place(outcomes) == i,
{
    let k = leaving_place(outcomes);
    assert(leaves_at(outcomes, k));
    if k < i {
        assert(is_value(outcomes[k]));
    }
    if i < k {
        assert(is_value(outcomes[i]));
    }
}

/// The outcome of a call that an evaluation cuts short: a failure of the
/// evaluator fails the call, a non-local exit is handed on as it is.
pub open spec fn handed_on(outcome: EvaluationView) -> Result<BuiltinStepView, Seq<char>>
    recommends
        !is_value(outcome),
{
    match outcome {
        Ok(o) => Ok(BuiltinStepView::Return(o)),
        Err(message) => Err(message),
    }
}

/// Whether every item is a string.
pub open spec fn all_strings(items: Seq<ExpressionView>) -> bool {
    forall|i: int| 0 <= i < items.len() ==> #[trigger] items[i] is CString
}

/// The texts of items that are strings.
pub open spec fn texts(items: Seq<ExpressionView>) -> Seq<Seq<char>>
    recommends
        all_strings(items),
{
    Seq::new(items.len(), |i: int| items[i]->CString_0)
}

/// The words of the command that the first argument holds: the items of a
/// list of strings, or one string alone.
pub open spec fn command_words(first: ExpressionView) -> Result<Seq<Seq<char>>, Seq<char>> {
    match first {
        ExpressionView::ListValue(items) => if !all_strings(items) {
            Err("subprocess.run() command list must contain only strings"@)
        } else if items.len() == 0 {
            Err("subprocess.run() command list cannot be empty"@)
        } else {
            Ok(texts(items))
        },
        ExpressionView::CString(s) => Ok(seq![s]),
        _ => Err("subprocess.run() first argument must be a list of strings or a string"@),
    }
}

/// The flag at place `index` of the arguments: off where the argument is left
/// out, and `complaint` where it is no boolean.
pub open spec fn flag_at(values: Seq<ExpressionView>, index: int, complaint: Seq<char>) -> Result<
    bool,
    Seq<char>,
> {
    if index < values.len() {
        match values[index] {
            ExpressionView::CTrue => Ok(true),
            ExpressionView::CFalse => Ok(false),
            _ => Err(complaint),
        }
    } else {
        Ok(false)
    }
}

/// What the interpreted program gets to see of a finished run: the
/// completed process as a value, or a failure as a value that wraps the
/// failure's display string.
pub open spec fn marshalled(result: Result<CompletedProcessView, ErrorView>) -> ExpressionResultView {
    match result {
        Ok(process) => ExpressionResultView::Value(
            ExpressionView::CompletedProcess {
                returncode: process.returncode,
                stdout: process.stdout,
                stderr: process.stderr,
            },
        ),
        Err(error) => ExpressionResultView::Value(
            ExpressionView::CErr(Box::new(ExpressionView::CString(error.display()))),
        ),
    }
}

/// The step that follows from the evaluated arguments of `subprocess.run`.
/// The first is the command, the second selects the shell, the third selects
/// capture. A command given as one string goes to the shell, whatever the
/// second argument says. A command given as a list is executed directly,
/// unless the shell is selected: the shell then takes the first word of the
/// list alone. A command that the engine rejects ends the call with a failure
/// as a value.
pub open spec fn run_step(values: Seq<ExpressionView>, platform: Platform) -> Result<
    BuiltinStepView,
    Seq<char>,
>
    recommends
        1 <= values.len() <= 3,
{
    match command_words(values[0]) {
        Err(message) => Err(message),
        Ok(words) => match flag_at(
            values,
            1,
            "subprocess.run() shell argument must be a boolean"@,
        ) {
            Err(message) => Err(message),
            Ok(shell) => match flag_at(
                values,
                2,
                "subprocess.run() capture_output argument must be a boolean"@,
            ) {
                Err(message) => Err(message),
                Ok(capture_output) => {
                    let options = RunOptions { shell, capture_output };
                    let plan = if shell || values[0] is CString {
                        shell_plan(words[0], options, platform)
                    } else {
                        direct_plan(words, options)
                    };
                    match plan {
                        Ok(request) => Ok(BuiltinStepView::Launch(request)),
                        Err(error) => Ok(BuiltinStepView::Return(marshalled(Err(error)))),
                    }
                },
            },
        },
    }
}

/// The first `count` of `outcomes`, or all of them where there are fewer.
pub open spec fn leading(outcomes: Seq<EvaluationView>, count: nat) -> Seq<EvaluationView> {
    if outcomes.len() <= count {
        outcomes
    } else {
        outcomes.take(count as int)
    }
}

/// The step of a call of `subprocess.run` with `arg_count` arguments, of
/// which the host has evaluated the leading ones, with `outcomes`.
///
/// The arguments are evaluated first, in their order, and the first
/// evaluation that does not end with a value ends the call. While arguments
/// are left, the next one is to be evaluated. Once all are values, a call
/// with none of them or with more than three fails, and the values of any
/// other call decide.
pub open spec fn subprocess_run_step(
    arg_count: nat,
    outcomes: Seq<EvaluationView>,
    platform: Platform,
) -> Result<BuiltinStepView, Seq<char>> {
    let seen = leading(outcomes, arg_count);
    if exists|i: int| leaves_at(seen, i) {
        handed_on(seen[leaving_place(seen)])
    } else if seen.len() < arg_count {
        Ok(BuiltinStepView::Evaluate(seen.len()))
    } else if arg_count == 0 || arg_count > 3 {
        Err("subprocess.run() takes 1 to 3 arguments"@)
    } else {
        run_step(Seq::new(seen.len(), |i: int| value_of(seen[i])), platform)
    }
}

/// The views of borrowed expressions, one for one.
pub open spec fn borrowed_views(values: Seq<&Expression>) -> Seq<ExpressionView> {
    Seq::new(values.len(), |i: int| values[i]@)
}

/// Turns the result of a run into what the interpreted program gets to see.
pub fn marshal_result(result: Result<CompletedProcess, SubprocessError>) -> (r: ExpressionResult)
    ensures
        r@ == marshalled(result_view(result)),
{
    proof {
        reveal_with_fuel(expression_view, 3);
    }
    match result {
        Ok(process) => ExpressionResult::Value(
            Expression::CompletedProcess {
                returncode: process.returncode,
                stdout: process.stdout,
                stderr: process.stderr,
            },
        ),
        Err(error) => {
            let message = error.to_string();
            ExpressionResult::Value(Expression::CErr(Box::new(Expression::CString(message))))
        },
    }
}

/// The words of the command that the first argument holds.
fn words_of(first: &Expression) -> (r: Result<Vec<String>, String>)
    ensures
        match r {
            Ok(words) => command_words(first@) == Ok::<Seq<Seq<char>>, Seq<char>>(
                words.deep_view(),
            ),
            Err(message) => command_words(first@) == Err::<Seq<Seq<char>>, Seq<char>>(message@),
        },
{
    match first {
        Expression::ListValue(items) => {
            let ghost views = expression_views(items@);
            let mut words: Vec<String> = Vec::new();
            let mut i: usize = 0;
            while i < items.len()
                invariant
                    i <= items.len(),
                    first@ == ExpressionView::ListValue(views),
                    views == expression_views(items@),
                    words.len() == i,
                    forall|j: int| 0 <= j < i ==> #[trigger] views[j] is CString,
                    forall|j: int| 0 <= j < i ==> #[trigger] words[j]@ == views[j]->CString_0,
                decreases items.len() - i,
            {
                match &items[i] {
                    Expression::CString(s) => {
                        assert(views[i as int] == items@[i as int]@);
                        words.push(s.clone());
                    },
                    _ => {
                        assert(views[i as int] == items@[i as int]@);
                        assert(!(views[i as int] is CString));
                        return Err(
                            String::from_str(
                                "subprocess.run() command list must contain only strings",
                            ),
                        );
                    },
                }
                i = i + 1;
            }
            assert(all_strings(views));
            if words.len() == 0 {
                return Err(String::from_str("subprocess.run() command list cannot be empty"));
            }
            assert(words.deep_view() =~= texts(views));
            Ok(words)
        },
        Expression::CString(s) => {
            let mut words: Vec<String> = Vec::new();
            words.push(s.clone());
            assert(words.deep_view() =~= seq![s@]);
            Ok(words)
        },
        _ => Err(
            String::from_str(
                "subprocess.run() first argument must be a list of strings or a string",
            ),
        ),
    }
}

/// The flag at place `index` of the arguments.
fn flag(values: &Vec<&Expression>, index: usize, complaint: &str) -> (r: Result<bool, String>)
    ensures
        result_view(r) == flag_at(borrowed_views(values@), index as int, complaint@),
{
    if index < values.len() {
        match values[index] {
            Expression::CTrue => Ok(true),
            Expression::CFalse => Ok(false),
            _ => Err(String::from_str(complaint)),
        }
    } else {
        Ok(false)
    }
}

/// The step that follows from the evaluated arguments.
fn decide(values: &Vec<&Expression>, platform: Platform) -> (r: Result<BuiltinStep, String>)
    requires
        1 <= values@.len() <= 3,
    ensures
        result_view(r) == run_step(borrowed_views(values@), platform),
{
    let words = match words_of(values[0]) {
        Ok(words) => words,
        Err(message) => {
            return Err(message);
        },
    };
    let shell = match flag(values, 1, "subprocess.run() shell argument must be a boolean") {
        Ok(b) => b,
        Err(message) => {
            return Err(message);
        },
    };
    let capture_output = match flag(
        values,
        2,
        "subprocess.run() capture_output argument must be a boolean",
    ) {
        Ok(b) => b,
        Err(message) => {
            return Err(message);
        },
    };
    let one_string = match values[0] {
        Expression::CString(_) => true,
        _ => false,
    };
    let options = RunOptions { shell, capture_output };
    let plan = if shell || one_string {
        run_shell_command(words[0].clone(), options, platform)
    } else {
        run_command(words, options)
    };
    match plan {
        Ok(request) => Ok(BuiltinStep::Launch(request)),
        Err(error) => Ok(BuiltinStep::Return(marshal_result(Err(error)))),
    }
}

/// The next step of a call of `subprocess.run` with `arg_count` arguments,
/// given how the evaluation of the leading ones ended. The host calls it
/// again after each evaluation, until it answers with a launch or an outcome.
pub fn subprocess_run_builtin(
    arg_count: usize,
    outcomes: &Vec<Evaluation>,
    platform: Platform,
) -> (r: Result<BuiltinStep, String>)
    ensures
        result_view(r) == subprocess_run_step(
            arg_count as nat,
            evaluation_views(outcomes@),
            platform,
        ),
{
    let n = if outcomes.len() <= arg_count {
        outcomes.len()
    } else {
        arg_count
    };
    let ghost seen = leading(evaluation_views(outcomes@), arg_count as nat);
    let mut values: Vec<&Expression> = Vec::new();
    let mut i: usize = 0;
    while i < n
        invariant
            i <= n,
            seen == leading(evaluation_views(outcomes@), arg_count as nat),
            n == seen.len(),
            n <= outcomes@.len(),
            forall|j: int| 0 <= j < n ==> seen[j] == result_view(outcomes@[j]),
            values.len() == i,
            forall|j: int| 0 <= j < i ==> is_value(#[trigger] seen[j]),
            forall|j: int| 0 <= j < i ==> #[trigger] values[j]@ == value_of(seen[j]),
        decreases n - i,
    {
        match &outcomes[i] {
            Ok(ExpressionResult::Value(v)) => {
                values.push(v);
            },
            Ok(ExpressionResult::Propagate(e)) => {
                proof {
                    lemma_leaving_place(seen, i as int);
                    assert(seen[i as int] == Ok::<ExpressionResultView, Seq<char>>(
                        ExpressionResultView::Propagate(e@),
                    ));
                }
                let outcome = ExpressionResult::Propagate(e.clone());
                assert(outcome@ == ExpressionResultView::Propagate(e@));
                return Ok(BuiltinStep::Return(outcome));
            },
            Err(message) => {
                proof {
                    lemma_leaving_place(seen, i as int);
                    assert(seen[i as int] == result_view(outcomes@[i as int]));
                }
                return Err(message.clone());
            },
        }
        i = i + 1;
    }
    assert(forall|k: int| !leaves_at(seen, k));
    if n < arg_count {
        return Ok(BuiltinStep::Evaluate(n));
    }
    if arg_count == 0 || arg_count > 3 {
        return Err(String::from_str("subprocess.run() takes 1 to 3 arguments"));
    }
    assert(borrowed_views(values@) =~= Seq::new(seen.len(), |i: int| value_of(seen[i])));
    decide(&values, platform)
}

/// Ends a call of `subprocess.run`: turns what the operating system reported
/// of the launch of `request` into the outcome of the call. A failure of the
/// run does not fail the call: it comes back as a value.
pub fn finish_subprocess_run(request: &SpawnRequest, report: Result<ProcessOutput, OsError>) -> (r:
    ExpressionResult)
    ensures
        r@ == marshalled(completion(request@, result_view(report))),
{
    marshal_result(request.complete(report))
}

/// The step of a call of the built-in function `func`.
pub open spec fn function_step(
    func: BuiltinFunction,
    arg_count: nat,
    outcomes: Seq<EvaluationView>,
    platform: Platform,
) -> Result<BuiltinStepView, Seq<char>> {
    match func {
        BuiltinFunction::SubprocessRun => subprocess_run_step(arg_count, outcomes, platform),
    }
}

/// The step of a call of the function `name`, looked up in `table`: nothing
/// where `table` does not hold the name, which is then no built-in function.
pub open spec fn call_step(
    table: Map<Seq<char>, BuiltinFunction>,
    name: Seq<char>,
    arg_count: nat,
    outcomes: Seq<EvaluationView>,
    platform: Platform,
) -> Result<Option<BuiltinStepView>, Seq<char>> {
    if table.contains_key(name) {
        match function_step(table[name], arg_count, outcomes, platform) {
            Ok(step) => Ok(Some(step)),
            Err(message) => Err(message),
        }
    } else {
        Ok(None)
    }
}

/// What a looked-up call answers, as a mathematical value.
pub open spec fn call_view(r: Result<Option<BuiltinStep>, String>) -> Result<
    Option<BuiltinStepView>,
    Seq<char>,
> {
    match r {
        Ok(Some(step)) => Ok(Some(step@)),
        Ok(None) => Ok(None),
        Err(message) => Err(message@),
    }
}

/// The table of the built-in functions that the interpreter has.
pub open spec fn builtin_table() -> Map<Seq<char>, BuiltinFunction> {
    Map::<Seq<char>, BuiltinFunction>::empty().insert(
        "subprocess.run"@,
        BuiltinFunction::SubprocessRun,
    )
}

/// Enters `subprocess.run` in `registry`.
pub fn register_subprocess_run(registry: &mut BuiltinRegistry)
    requires
        old(registry).wf(),
    ensures
        final(registry).wf(),
        final(registry)@ == old(registry)@.insert(
            "subprocess.run"@,
            BuiltinFunction::SubprocessRun,
        ),
{
    registry.register(String::from_str("subprocess.run"), BuiltinFunction::SubprocessRun);
}

/// The table of the built-in functions. A host builds it once and hands it
/// to every call.
pub fn get_builtin_registry() -> (registry: BuiltinRegistry)
    ensures
        registry.wf(),
        registry@ == builtin_table(),
{
    let mut registry = BuiltinRegistry::new();
    register_subprocess_run(&mut registry);
    registry
}

/// Prepares an environment for built-in functions. They are found through
/// the registry, so the environment stays as it is.
pub fn register_builtins<E>(env: &mut E)
    ensures
        *final(env) == *old(env),
{
}

/// The next step of a call of the built-in function `func`.
pub fn call_builtin(
    func: BuiltinFunction,
    arg_count: usize,
    outcomes: &Vec<Evaluation>,
    platform: Platform,
) -> (r: Result<BuiltinStep, String>)
    ensures
        result_view(r) == function_step(
            func,
            arg_count as nat,
            evaluation_views(outcomes@),
            platform,
        ),
{
    match func {
        BuiltinFunction::SubprocessRun => subprocess_run_builtin(arg_count, outcomes, platform),
    }
}

/// The next step of a call of the function `name` with `arg_count`
/// arguments, if `registry` holds a built-in function of that name. Where it
/// holds none, the answer is nothing, and the caller looks for a function of
/// the interpreted program.
pub fn eval_builtin_function(
    registry: &BuiltinRegistry,
    name: &Name,
    arg_count: usize,
    outcomes: &Vec<Evaluation>,
    platform: Platform,
) -> (r: Result<Option<BuiltinStep>, String>)
    requires
        registry.wf(),
    ensures
        call_view(r) == call_step(
            registry@,
            name@,
            arg_count as nat,
            evaluation_views(outcomes@),
            platform,
        ),
{
    match registry.lookup(name) {
        Some(func) => match call_builtin(*func, arg_count, outcomes, platform) {
            Ok(step) => Ok(Some(step)),
            Err(message) => Err(message),
        },
        None => Ok(None),
    }
}

} // verus!
