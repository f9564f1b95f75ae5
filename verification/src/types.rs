//! The values of one synchronous run: its configuration and its result.

use vstd::prelude::*;

verus! {

/// How a command is to be executed.
#[derive(Debug, Clone, Copy, PartialEq, Eq, Structural)]
pub struct RunOptions {
    /// Hand the command to the platform shell.
    pub shell: bool,
    /// Redirect the child's stdout and stderr into memory.
    pub capture_output: bool,
}

impl Default for RunOptions {
    /// Direct execution with inherited output.
    fn default() -> (r: Self)
        ensures
            r == (RunOptions { shell: false, capture_output: false }),
    {
        RunOptions { shell: false, capture_output: false }
    }
}

/// The result of a run that has finished.
#[derive(Debug, Clone, PartialEq)]
pub struct CompletedProcess {
    /// The exit code, or -1 where the operating system reported none.
    pub returncode: i32,
    /// What the child wrote to stdout, where output was captured.
    pub stdout: Option<String>,
    /// What the child wrote to stderr, where output was captured.
    pub stderr: Option<String>,
}

/// A finished run as a mathematical value.
pub struct CompletedProcessView {
    pub returncode: i32,
    pub stdout: Option<Seq<char>>,
    pub stderr: Option<Seq<char>>,
}

impl View for CompletedProcess {
    type V = CompletedProcessView;

    open spec fn view(&self) -> CompletedProcessView {
        CompletedProcessView {
            returncode: self.returncode,
            stdout: self.stdout.deep_view(),
            stderr: self.stderr.deep_view(),
        }
    }
}

/// A result as a mathematical value: each side by its view.
pub open spec fn result_view<T: View, E: View>(r: Result<T, E>) -> Result<T::V, E::V> {
    match r {
        Ok(t) => Ok(t@),
        Err(e) => Err(e@),
    }
}

} // verus!
