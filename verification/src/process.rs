//! The handle of a spawned child: waiting for it, and ending it.
//!
//! The handle holds what the library needs to know of the child, its process
//! id and whether it has been reaped. The host holds the child itself,
//! performs what the handle asks for, and reports what came of it.

use crate::engine::{exit_code, Platform};
use crate::errors::{OsError, OsErrorKind, OsErrorView};
use crate::types::result_view;
use vstd::prelude::*;

verus! {

/// What the host is to do to a child.
#[derive(Debug, Clone, Copy, PartialEq, Eq, Structural)]
pub enum ControlAction {
    /// Deliver the termination signal to the process of this id, which is
    /// positive: a request to end, which the child may handle.
    SignalTerminate { pid: i32 },
    /// End the child by the platform's forceful means.
    ForceKill,
    /// Nothing: the child has been reaped, and its id may be another's by now.
    Nothing,
}

impl View for ControlAction {
    type V = ControlAction;

    open spec fn view(&self) -> ControlAction {
        *self
    }
}

/// A spawned child that may still be running.
#[derive(Debug)]
pub struct Processo {
    pid: u32,
    reaped: bool,
}

/// What ending the child of id `pid` gracefully takes on `platform`, or the
/// reason why it cannot be asked for. POSIX has a signal for it, which can be
/// addressed to positive ids alone. Windows has no such means, so that the
/// child is killed there.
pub open spec fn graceful_end(pid: u32, reaped: bool, platform: Platform) -> Result<
    ControlAction,
    OsErrorView,
> {
    if reaped {
        Ok(ControlAction::Nothing)
    } else {
        match platform {
            Platform::Windows => Ok(ControlAction::ForceKill),
            Platform::Posix => if 0 < pid <= i32::MAX {
                Ok(ControlAction::SignalTerminate { pid: pid as i32 })
            } else {
                Err(
                    OsErrorView {
                        kind: OsErrorKind::Other,
                        message: "process id out of range for a signal"@,
                    },
                )
            },
        }
    }
}

/// What ending a child by force takes.
pub open spec fn forced_end(reaped: bool) -> ControlAction {
    if reaped {
        ControlAction::Nothing
    } else {
        ControlAction::ForceKill
    }
}

impl OsError {
    /// A failure that the operating system did not classify, such as the
    /// refusal of a signal.
    pub fn other(message: &str) -> (e: OsError)
        ensures
            e@ == (OsErrorView { kind: OsErrorKind::Other, message: message@ }),
    {
        OsError::new(OsErrorKind::Other, message)
    }
}

impl Processo {
    /// The id of the child.
    pub closed spec fn pid(&self) -> u32 {
        self.pid
    }

    /// Whether the child has been reaped.
    pub closed spec fn reaped(&self) -> bool {
        self.reaped
    }

    /// The handle of a child that has just been spawned under the id `pid`.
    pub fn new(pid: u32) -> (p: Processo)
        ensures
            p.pid() == pid,
            !p.reaped(),
    {
        Processo { pid, reaped: false }
    }

    /// The id of the child.
    pub fn id(&self) -> (pid: u32)
        ensures
            pid == self.pid(),
    {
        self.pid
    }

    /// Whether the child has been reaped.
    pub fn is_reaped(&self) -> (b: bool)
        ensures
            b == self.reaped(),
    {
        self.reaped
    }

    /// Ends the wait for the child: `exit` is what the operating system
    /// reported when the host waited for it. A report of the exit gives the
    /// exit code, or -1 where a signal ended the child, and the child counts
    /// as reaped. A failure of the wait is handed on, and the handle stays as
    /// it was.
    pub fn wait(&mut self, exit: Result<Option<i32>, OsError>) -> (r: Result<i32, OsError>)
        requires
            !old(self).reaped(),
        ensures
            final(self).pid() == old(self).pid(),
            match exit {
                Ok(code) => r == Ok::<i32, OsError>(exit_code(code)) && final(self).reaped(),
                Err(error) => r == Err::<i32, OsError>(error) && !final(self).reaped(),
            },
    {
        match exit {
            Ok(code) => {
                self.reaped = true;
                match code {
                    Some(c) => Ok(c),
                    None => Ok(-1),
                }
            },
            Err(error) => Err(error),
        }
    }

    /// Asks for the graceful end of the child. The child is not waited for.
    pub fn terminate(&self, platform: Platform) -> (r: Result<ControlAction, OsError>)
        ensures
            result_view(r) == graceful_end(self.pid(), self.reaped(), platform),
    {
        if self.reaped {
            return Ok(ControlAction::Nothing);
        }
        match platform {
            Platform::Windows => Ok(ControlAction::ForceKill),
            Platform::Posix => {
                if 0 < self.pid && self.pid <= 0x7fff_ffff {
                    Ok(ControlAction::SignalTerminate { pid: self.pid as i32 })
                } else {
                    Err(OsError::other("process id out of range for a signal"))
                }
            },
        }
    }

    /// Asks for the forced end of the child. The child is not waited for.
    pub fn kill(&self) -> (action: ControlAction)
        ensures
            action == forced_end(self.reaped()),
    {
        if self.reaped {
            ControlAction::Nothing
        } else {
            ControlAction::ForceKill
        }
    }
}

} // verus!
