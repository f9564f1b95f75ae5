//! The interactive handle: a child whose streams the caller holds.

use crate::engine::{invalid_arguments, SpawnRequest, SpawnRequestView, StreamMode};
use crate::errors::{classify, ErrorView, OsError, SubprocessError};
use crate::types::{result_view, RunOptions};
use vstd::prelude::*;

verus! {

/// A spawned child and the ends of the pipes to its streams. `C` is the
/// host's handle of the child; `I`, `O` and `E` are its pipe ends.
///
/// An end is held by one holder at a time. Taking an end out of the handle
/// leaves none behind; dropping the end taken from `stdin` tells the child
/// that its input is over.
///
/// The child stands last: when the handle is dropped, the ends that it still
/// holds are closed before the host's handle of the child is dropped, so that
/// a host that reaps the child there does not wait for a child that waits for
/// the end of its input.
#[derive(Debug)]
pub struct PopenProcess<C, I, O, E> {
    pub stdin: Option<I>,
    pub stdout: Option<O>,
    pub stderr: Option<E>,
    pub child: C,
}

/// The stream connections of an interactive run: stdin is piped always,
/// stdout and stderr are piped where output is captured and inherited where
/// it is not.
pub open spec fn popen_streams(options: RunOptions) -> (StreamMode, StreamMode, StreamMode) {
    if options.capture_output {
        (StreamMode::Piped, StreamMode::Piped, StreamMode::Piped)
    } else {
        (StreamMode::Piped, StreamMode::Inherit, StreamMode::Inherit)
    }
}

/// The request of an interactive run, or the reason why there is none.
pub open spec fn popen_plan(command: Seq<Seq<char>>, options: RunOptions) -> Result<
    SpawnRequestView,
    ErrorView,
> {
    if command.len() == 0 {
        Err(invalid_arguments("Command cannot be empty"@))
    } else {
        Ok(
            SpawnRequestView {
                program: command[0],
                args: command.skip(1),
                stdin: popen_streams(options).0,
                stdout: popen_streams(options).1,
                stderr: popen_streams(options).2,
            },
        )
    }
}

/// Prepares the interactive execution of `command`, which no shell reads.
pub fn popen_command(command: Vec<String>, options: RunOptions) -> (r: Result<
    SpawnRequest,
    SubprocessError,
>)
    ensures
        result_view(r) == popen_plan(command.deep_view(), options),
{
    let mut words = command;
    if words.len() == 0 {
        return Err(SubprocessError::InvalidArguments(String::from_str("Command cannot be empty")));
    }
    let program = words.remove(0);
    let output = if options.capture_output {
        StreamMode::Piped
    } else {
        StreamMode::Inherit
    };
    let request = SpawnRequest {
        program,
        args: words,
        stdin: StreamMode::Piped,
        stdout: output,
        stderr: output,
    };
    assert(request.args.deep_view() =~= command.deep_view().skip(1));
    Ok(request)
}

/// What the operating system hands back of a spawn that succeeded.
#[derive(Debug)]
pub struct Spawned<C, I, O, E> {
    pub child: C,
    pub stdin: Option<I>,
    pub stdout: Option<O>,
    pub stderr: Option<E>,
}

/// The end of a pipe that a handle holds: the end that came back from the
/// spawn, if the request asked for the pipe.
pub open spec fn held<T>(end: Option<T>, asked_for: bool) -> Option<T> {
    if asked_for {
        end
    } else {
        None
    }
}

impl<C, I, O, E> PopenProcess<C, I, O, E> {
    /// The handle of a run whose request was `request`, given what the
    /// operating system reported of the spawn. The handle holds the end of
    /// stdin, and those of stdout and stderr where the request asked for
    /// pipes. A spawn that failed gives the failure's classification under
    /// the program's name.
    pub fn open(request: &SpawnRequest, report: Result<Spawned<C, I, O, E>, OsError>) -> (r: Result<
        Self,
        SubprocessError,
    >)
        ensures
            match report {
                Ok(spawned) => r == Ok::<Self, SubprocessError>(
                    PopenProcess {
                        stdin: spawned.stdin,
                        stdout: held(spawned.stdout, request@.captures()),
                        stderr: held(spawned.stderr, request@.captures()),
                        child: spawned.child,
                    },
                ),
                Err(error) => r matches Err(e) && e@ == classify(error@, request.program@),
            },
    {
        match report {
            Ok(spawned) => {
                let capture = request.captures();
                let stdout = if capture {
                    spawned.stdout
                } else {
                    None
                };
                let stderr = if capture {
                    spawned.stderr
                } else {
                    None
                };
                Ok(PopenProcess { stdin: spawned.stdin, stdout, stderr, child: spawned.child })
            },
            Err(error) => Err(SubprocessError::from_io_error(error, request.program.as_str())),
        }
    }

    /// Takes the end of stdin out of the handle.
    pub fn take_stdin(&mut self) -> (end: Option<I>)
        ensures
            end == old(self).stdin,
            final(self).stdin is None,
            final(self).child == old(self).child,
            final(self).stdout == old(self).stdout,
            final(self).stderr == old(self).stderr,
    {
        self.stdin.take()
    }

    /// Takes the end of stdout out of the handle.
    pub fn take_stdout(&mut self) -> (end: Option<O>)
        ensures
            end == old(self).stdout,
            final(self).stdout is None,
            final(self).child == old(self).child,
            final(self).stdin == old(self).stdin,
            final(self).stderr == old(self).stderr,
    {
        self.stdout.take()
    }

    /// Takes the end of stderr out of the handle.
    pub fn take_stderr(&mut self) -> (end: Option<E>)
        ensures
            end == old(self).stderr,
            final(self).stderr is None,
            final(self).child == old(self).child,
            final(self).stdin == old(self).stdin,
            final(self).stdout == old(self).stdout,
    {
        self.stderr.take()
    }
}

} // verus!
