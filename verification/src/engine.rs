//! The execution engine: direct and shell-mediated runs.
//!
//! A run has two halves. The first turns the caller's command into the
//! request that the host hands to the operating system, or rejects it. The
//! second turns what the operating system reports into the result of the run.

use crate::errors::{classify, ErrorCategory, ErrorView, OsError, OsErrorView, SubprocessError};
use crate::text::{bytes_to_string, blank, decoded, is_blank};
use crate::types::{result_view, CompletedProcess, CompletedProcessView, RunOptions};
use vstd::prelude::*;

verus! {

/// The family of operating system that the host runs on.
#[derive(Debug, Clone, Copy, PartialEq, Eq, Structural)]
pub enum Platform {
    Posix,
    Windows,
}

/// What one of the child's standard streams is connected to.
#[derive(Debug, Clone, Copy, PartialEq, Eq, Structural)]
pub enum StreamMode {
    /// The caller's own stream.
    Inherit,
    /// A pipe whose other end the host holds.
    Piped,
    /// Nothing: reads end at once.
    Null,
}

/// What the host is to launch: the program, its arguments word for word, and
/// what the three standard streams are connected to.
#[derive(Debug, Clone, PartialEq)]
pub struct SpawnRequest {
    pub program: String,
    pub args: Vec<String>,
    pub stdin: StreamMode,
    pub stdout: StreamMode,
    pub stderr: StreamMode,
}

/// A launch request as a mathematical value.
pub struct SpawnRequestView {
    pub program: Seq<char>,
    pub args: Seq<Seq<char>>,
    pub stdin: StreamMode,
    pub stdout: StreamMode,
    pub stderr: StreamMode,
}

impl View for SpawnRequest {
    type V = SpawnRequestView;

    open spec fn view(&self) -> SpawnRequestView {
        SpawnRequestView {
            program: self.program@,
            args: self.args.deep_view(),
            stdin: self.stdin,
            stdout: self.stdout,
            stderr: self.stderr,
        }
    }
}

impl SpawnRequestView {
    /// Whether the child's output comes back to the caller.
    pub open spec fn captures(self) -> bool {
        self.stdout == StreamMode::Piped
    }
}

/// What the operating system reports of a child that has exited.
#[derive(Debug, Clone)]
pub struct ProcessOutput {
    /// The exit code; none where a signal ended the child.
    pub code: Option<i32>,
    /// The bytes drained from the child's stdout, if it was piped.
    pub stdout: Vec<u8>,
    /// The bytes drained from the child's stderr, if it was piped.
    pub stderr: Vec<u8>,
}

/// An exit report as a mathematical value.
pub struct ProcessOutputView {
    pub code: Option<i32>,
    pub stdout: Seq<u8>,
    pub stderr: Seq<u8>,
}

impl View for ProcessOutput {
    type V = ProcessOutputView;

    open spec fn view(&self) -> ProcessOutputView {
        ProcessOutputView { code: self.code, stdout: self.stdout@, stderr: self.stderr@ }
    }
}

/// The exit code of a run: the one reported, or -1 where none was.
pub open spec fn exit_code(code: Option<i32>) -> i32 {
    match code {
        Some(c) => c,
        None => -1i32,
    }
}

/// The error for a rejected argument.
pub open spec fn invalid_arguments(detail: Seq<char>) -> ErrorView {
    ErrorView { category: ErrorCategory::InvalidArguments, detail }
}

/// The stream connections of a blocking run. Without capture the child
/// inherits all three streams. With capture its stdout and stderr are piped
/// and it has no stdin.
pub open spec fn run_streams(options: RunOptions) -> (StreamMode, StreamMode, StreamMode) {
    if options.capture_output {
        (StreamMode::Null, StreamMode::Piped, StreamMode::Piped)
    } else {
        (StreamMode::Inherit, StreamMode::Inherit, StreamMode::Inherit)
    }
}

/// The request of a direct run, or the reason why there is none: the first
/// word is the program, the rest are its arguments, unchanged.
pub open spec fn direct_plan(command: Seq<Seq<char>>, options: RunOptions) -> Result<
    SpawnRequestView,
    ErrorView,
> {
    if command.len() == 0 {
        Err(invalid_arguments("Command cannot be empty"@))
    } else {
        Ok(
            SpawnRequestView {
                program: command[0],
                args: command.skip(1),
                stdin: run_streams(options).0,
                stdout: run_streams(options).1,
                stderr: run_streams(options).2,
            },
        )
    }
}

/// The shell of a platform.
pub open spec fn shell_program(platform: Platform) -> Seq<char> {
    match platform {
        Platform::Posix => "sh"@,
        Platform::Windows => "cmd"@,
    }
}

/// The flag after which the shell of a platform takes a command line.
pub open spec fn shell_flag(platform: Platform) -> Seq<char> {
    match platform {
        Platform::Posix => "-c"@,
        Platform::Windows => "/C"@,
    }
}

/// The request of a shell-mediated run, or the reason why there is none: the
/// platform's shell gets the command line as one argument, unchanged.
pub open spec fn shell_plan(command: Seq<char>, options: RunOptions, platform: Platform) -> Result<
    SpawnRequestView,
    ErrorView,
> {
    if is_blank(command) {
        Err(invalid_arguments("Shell command cannot be empty"@))
    } else {
        Ok(
            SpawnRequestView {
                program: shell_program(platform),
                args: seq![shell_flag(platform), command],
                stdin: run_streams(options).0,
                stdout: run_streams(options).1,
                stderr: run_streams(options).2,
            },
        )
    }
}

/// The result of a run whose request was `request`, given what the operating
/// system reported of the launch. A child that exited gives a completed
/// process whatever its exit code; a launch that failed gives the failure's
/// classification under the program's name.
pub open spec fn completion(
    request: SpawnRequestView,
    report: Result<ProcessOutputView, OsErrorView>,
) -> Result<CompletedProcessView, ErrorView> {
    match report {
        Ok(output) => Ok(
            CompletedProcessView {
                returncode: exit_code(output.code),
                stdout: if request.captures() {
                    Some(decoded(output.stdout))
                } else {
                    None
                },
                stderr: if request.captures() {
                    Some(decoded(output.stderr))
                } else {
                    None
                },
            },
        ),
        Err(error) => Err(classify(error, request.program)),
    }
}

/// The stream connections of a blocking run.
fn stream_modes(options: &RunOptions) -> (m: (StreamMode, StreamMode, StreamMode))
    ensures
        m == run_streams(*options),
{
    if options.capture_output {
        (StreamMode::Null, StreamMode::Piped, StreamMode::Piped)
    } else {
        (StreamMode::Inherit, StreamMode::Inherit, StreamMode::Inherit)
    }
}

/// Prepares the direct execution of `command`: no shell reads it, so
/// metacharacters in it mean nothing.
pub fn run_command(command: Vec<String>, options: RunOptions) -> (r: Result<
    SpawnRequest,
    SubprocessError,
>)
    ensures
        result_view(r) == direct_plan(command.deep_view(), options),
{
    let mut words = command;
    if words.len() == 0 {
        return Err(SubprocessError::InvalidArguments(String::from_str("Command cannot be empty")));
    }
    let program = words.remove(0);
    let modes = stream_modes(&options);
    let request = SpawnRequest {
        program,
        args: words,
        stdin: modes.0,
        stdout: modes.1,
        stderr: modes.2,
    };
    assert(request.args.deep_view() =~= command.deep_view().skip(1));
    Ok(request)
}

/// Prepares the execution of `command` by the platform's shell, which alone
/// interprets it.
pub fn run_shell_command(command: String, options: RunOptions, platform: Platform) -> (r: Result<
    SpawnRequest,
    SubprocessError,
>)
    ensures
        result_view(r) == shell_plan(command@, options, platform),
{
    if blank(command.as_str()) {
        return Err(
            SubprocessError::InvalidArguments(String::from_str("Shell command cannot be empty")),
        );
    }
    let (program, flag) = match platform {
        Platform::Posix => (String::from_str("sh"), String::from_str("-c")),
        Platform::Windows => (String::from_str("cmd"), String::from_str("/C")),
    };
    let mut args: Vec<String> = Vec::new();
    args.push(flag);
    args.push(command);
    let modes = stream_modes(&options);
    let request = SpawnRequest { program, args, stdin: modes.0, stdout: modes.1, stderr: modes.2 };
    assert(request.args.deep_view() =~= seq![shell_flag(platform), command@]);
    Ok(request)
}

impl SpawnRequest {
    /// Whether the child's output comes back to the caller.
    pub fn captures(&self) -> (b: bool)
        ensures
            b == self@.captures(),
    {
        match self.stdout {
            StreamMode::Piped => true,
            _ => false,
        }
    }

    /// Ends a run: turns what the operating system reported of this request's
    /// launch into the result of the run.
    pub fn complete(&self, report: Result<ProcessOutput, OsError>) -> (r: Result<
        CompletedProcess,
        SubprocessError,
    >)
        ensures
            result_view(r) == completion(self@, result_view(report)),
    {
        match report {
            Ok(output) => {
                let returncode = match output.code {
                    Some(c) => c,
                    None => -1,
                };
                let capture = self.captures();
                let stdout = if capture {
                    Some(bytes_to_string(output.stdout.as_slice()))
                } else {
                    None
                };
                let stderr = if capture {
                    Some(bytes_to_string(output.stderr.as_slice()))
                } else {
                    None
                };
                Ok(CompletedProcess { returncode, stdout, stderr })
            },
            Err(error) => Err(SubprocessError::from_io_error(error, self.program.as_str())),
        }
    }
}

} // verus!
