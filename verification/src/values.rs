//! The interpreter values that cross the boundary of the process subsystem.

use vstd::prelude::*;

verus! {

/// The name of a function of the interpreted language.
pub type Name = String;

/// An interpreter expression, as far as built-in functions read and build it.
#[derive(Debug, PartialEq)]
pub enum Expression {
    CTrue,
    CFalse,
    CInt(i32),
    CString(String),
    ListValue(Vec<Expression>),
    /// A call of a function by name.
    FuncCall(Name, Vec<Expression>),
    /// The structured success of a run.
    CompletedProcess { returncode: i32, stdout: Option<String>, stderr: Option<String> },
    /// A failure as a value, which the interpreted program can inspect.
    CErr(Box<Expression>),
}

/// How the evaluation of an expression ended.
#[derive(Debug, PartialEq)]
pub enum ExpressionResult {
    /// With a value.
    Value(Expression),
    /// With a non-local exit that carries a value outwards.
    Propagate(Expression),
}

/// An expression as a mathematical value.
pub enum ExpressionView {
    CTrue,
    CFalse,
    CInt(i32),
    CString(Seq<char>),
    ListValue(Seq<ExpressionView>),
    FuncCall(Seq<char>, Seq<ExpressionView>),
    CompletedProcess { returncode: i32, stdout: Option<Seq<char>>, stderr: Option<Seq<char>> },
    CErr(Box<ExpressionView>),
}

/// The end of an evaluation as a mathematical value.
pub enum ExpressionResultView {
    Value(ExpressionView),
    Propagate(ExpressionView),
}

/// The views of a sequence of expressions, one for one.
pub open spec fn expression_views(items: Seq<Expression>) -> Seq<ExpressionView>
    decreases items,
{
    Seq::new(
        items.len(),
        |i: int|
            if 0 <= i < items.len() {
                expression_view(items[i])
            } else {
                ExpressionView::CTrue
            },
    )
}

/// The mathematical value that an expression stands for.
pub open spec fn expression_view(e: Expression) -> ExpressionView
    decreases e,
{
    match e {
        Expression::CTrue => ExpressionView::CTrue,
        Expression::CFalse => ExpressionView::CFalse,
        Expression::CInt(n) => ExpressionView::CInt(n),
        Expression::CString(s) => ExpressionView::CString(s@),
        Expression::ListValue(items) => ExpressionView::ListValue(expression_views(items@)),
        Expression::FuncCall(name, args) => ExpressionView::FuncCall(
            name@,
            expression_views(args@),
        ),
        Expression::CompletedProcess { returncode, stdout, stderr } => {
            ExpressionView::CompletedProcess {
                returncode,
                stdout: stdout.deep_view(),
                stderr: stderr.deep_view(),
            }
        },
        Expression::CErr(inner) => ExpressionView::CErr(Box::new(expression_view(*inner))),
    }
}

impl View for Expression {
    type V = ExpressionView;

    open spec fn view(&self) -> ExpressionView {
        expression_view(*self)
    }
}

impl View for ExpressionResult {
    type V = ExpressionResultView;

    open spec fn view(&self) -> ExpressionResultView {
        match self {
            ExpressionResult::Value(e) => ExpressionResultView::Value(e@),
            ExpressionResult::Propagate(e) => ExpressionResultView::Propagate(e@),
        }
    }
}

/// A copy of an optional text.
fn clone_text(text: &Option<String>) -> (r: Option<String>)
    ensures
        r.deep_view() == text.deep_view(),
{
    match text {
        Some(s) => Some(s.clone()),
        None => None,
    }
}

/// Copies of expressions, one for one.
fn clone_all(items: &Vec<Expression>) -> (r: Vec<Expression>)
    ensures
        expression_views(r@) == expression_views(items@),
    decreases items,
{
    let mut copies: Vec<Expression> = Vec::new();
    let mut i: usize = 0;
    while i < items.len()
        invariant
            i <= items.len(),
            copies.len() == i,
            forall|j: int| 0 <= j < i ==> copies[j]@ == items[j]@,
        decreases items.len() - i,
    {
        let copy = items[i].clone();
        copies.push(copy);
        i = i + 1;
    }
    assert(expression_views(copies@) =~= expression_views(items@));
    copies
}

impl Clone for Expression {
    /// A copy that stands for the same value.
    fn clone(&self) -> (r: Expression)
        ensures
            r@ == self@,
        decreases self,
    {
        match self {
            Expression::CTrue => Expression::CTrue,
            Expression::CFalse => Expression::CFalse,
            Expression::CInt(n) => Expression::CInt(*n),
            Expression::CString(s) => Expression::CString(s.clone()),
            Expression::ListValue(items) => Expression::ListValue(clone_all(items)),
            Expression::FuncCall(name, args) => Expression::FuncCall(name.clone(), clone_all(args)),
            Expression::CompletedProcess { returncode, stdout, stderr } => {
                Expression::CompletedProcess {
                    returncode: *returncode,
                    stdout: clone_text(stdout),
                    stderr: clone_text(stderr),
                }
            },
            Expression::CErr(inner) => {
                let copy = (**inner).clone();
                Expression::CErr(Box::new(copy))
            },
        }
    }
}

impl Clone for ExpressionResult {
    /// A copy that stands for the same outcome.
    fn clone(&self) -> (r: ExpressionResult)
        ensures
            r@ == self@,
    {
        match self {
            ExpressionResult::Value(e) => ExpressionResult::Value(e.clone()),
            ExpressionResult::Propagate(e) => ExpressionResult::Propagate(e.clone()),
        }
    }
}

} // verus!
