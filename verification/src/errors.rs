//! The error taxonomy: every failure of the subsystem falls under exactly one
//! category and carries one piece of text.

use vstd::prelude::*;

verus! {

/// The categories of failure.
#[derive(Debug, Clone, Copy, PartialEq, Eq, Structural)]
pub enum ErrorCategory {
    InvalidArguments,
    CommandNotFound,
    PermissionDenied,
    ExecutionFailed,
    IoError,
    OutputCaptureError,
}

/// How the operating system classified a failure of its own.
#[derive(Debug, Clone, Copy, PartialEq, Eq, Structural)]
pub enum OsErrorKind {
    NotFound,
    PermissionDenied,
    Other,
}

/// A failure reported by the operating system: its kind and its own message.
#[derive(Debug, Clone)]
pub struct OsError {
    pub kind: OsErrorKind,
    pub message: String,
}

/// A failure of the operating system as a mathematical value.
pub struct OsErrorView {
    pub kind: OsErrorKind,
    pub message: Seq<char>,
}

impl View for OsError {
    type V = OsErrorView;

    open spec fn view(&self) -> OsErrorView {
        OsErrorView { kind: self.kind, message: self.message@ }
    }
}

/// A classified failure.
#[derive(Debug, Clone, PartialEq)]
pub enum SubprocessError {
    /// The caller's arguments failed validation before anything was launched.
    InvalidArguments(String),
    /// The operating system could not find the executable; holds its name.
    CommandNotFound(String),
    /// The operating system refused to execute; holds the command's name.
    PermissionDenied(String),
    /// The process ran and failed. No run produces it: a child that exits
    /// with a code other than 0 has completed all the same.
    ExecutionFailed(String),
    /// Any other failure of the operating system.
    IoError(String),
    /// Captured output could not be drained or converted.
    OutputCaptureError(String),
}

/// A classified failure as a mathematical value.
pub struct ErrorView {
    pub category: ErrorCategory,
    pub detail: Seq<char>,
}

/// The text that opens the display string of each category.
pub open spec fn category_label(category: ErrorCategory) -> Seq<char> {
    match category {
        ErrorCategory::InvalidArguments => "Invalid arguments"@,
        ErrorCategory::CommandNotFound => "Command not found"@,
        ErrorCategory::PermissionDenied => "Permission denied"@,
        ErrorCategory::ExecutionFailed => "Execution failed"@,
        ErrorCategory::IoError => "I/O Error"@,
        ErrorCategory::OutputCaptureError => "Output capture error"@,
    }
}

impl ErrorView {
    /// The display string: the category's label, a colon and a space, the detail.
    pub open spec fn display(self) -> Seq<char> {
        category_label(self.category) + ": "@ + self.detail
    }
}

/// The classification of a failure of the operating system met while
/// launching `command`: by its kind alone, under the command's name, with the
/// system's own message kept where the kind does not say it all.
pub open spec fn classify(error: OsErrorView, command: Seq<char>) -> ErrorView {
    match error.kind {
        OsErrorKind::NotFound => ErrorView {
            category: ErrorCategory::CommandNotFound,
            detail: command,
        },
        OsErrorKind::PermissionDenied => ErrorView {
            category: ErrorCategory::PermissionDenied,
            detail: command,
        },
        OsErrorKind::Other => ErrorView {
            category: ErrorCategory::IoError,
            detail: command + ": "@ + error.message,
        },
    }
}

impl View for SubprocessError {
    type V = ErrorView;

    open spec fn view(&self) -> ErrorView {
        match self {
            SubprocessError::InvalidArguments(s) => ErrorView {
                category: ErrorCategory::InvalidArguments,
                detail: s@,
            },
            SubprocessError::CommandNotFound(s) => ErrorView {
                category: ErrorCategory::CommandNotFound,
                detail: s@,
            },
            SubprocessError::PermissionDenied(s) => ErrorView {
                category: ErrorCategory::PermissionDenied,
                detail: s@,
            },
            SubprocessError::ExecutionFailed(s) => ErrorView {
                category: ErrorCategory::ExecutionFailed,
                detail: s@,
            },
            SubprocessError::IoError(s) => ErrorView { category: ErrorCategory::IoError, detail: s@ },
            SubprocessError::OutputCaptureError(s) => ErrorView {
                category: ErrorCategory::OutputCaptureError,
                detail: s@,
            },
        }
    }
}

/// `head`, a colon and a space, then `tail`.
fn join_with_colon(head: &str, tail: &str) -> (s: String)
    ensures
        s@ == head@ + ": "@ + tail@,
{
    let mut s = String::from_str(head);
    s.append(": ");
    s.append(tail);
    assert(s@ =~= head@ + ": "@ + tail@);
    s
}

impl OsError {
    /// A failure of the given kind with the system's own message.
    pub fn new(kind: OsErrorKind, message: &str) -> (e: OsError)
        ensures
            e@ == (OsErrorView { kind, message: message@ }),
    {
        OsError { kind, message: String::from_str(message) }
    }
}

impl SubprocessError {
    /// Classifies a failure of the operating system met while launching `command`.
    pub fn from_io_error(error: OsError, command: &str) -> (e: SubprocessError)
        ensures
            e@ == classify(error@, command@),
    {
        match error.kind {
            OsErrorKind::NotFound => SubprocessError::CommandNotFound(String::from_str(command)),
            OsErrorKind::PermissionDenied => SubprocessError::PermissionDenied(
                String::from_str(command),
            ),
            OsErrorKind::Other => SubprocessError::IoError(
                join_with_colon(command, error.message.as_str()),
            ),
        }
    }

    /// The category this failure falls under.
    pub fn category(&self) -> (c: ErrorCategory)
        ensures
            c == self@.category,
    {
        match self {
            SubprocessError::InvalidArguments(_) => ErrorCategory::InvalidArguments,
            SubprocessError::CommandNotFound(_) => ErrorCategory::CommandNotFound,
            SubprocessError::PermissionDenied(_) => ErrorCategory::PermissionDenied,
            SubprocessError::ExecutionFailed(_) => ErrorCategory::ExecutionFailed,
            SubprocessError::IoError(_) => ErrorCategory::IoError,
            SubprocessError::OutputCaptureError(_) => ErrorCategory::OutputCaptureError,
        }
    }

    /// The display string, the one form in which a failure reaches the interpreter.
    pub fn to_string(&self) -> (s: String)
        ensures
            s@ == self@.display(),
    {
        match self {
            SubprocessError::InvalidArguments(d) => join_with_colon("Invalid arguments", d.as_str()),
            SubprocessError::CommandNotFound(d) => join_with_colon("Command not found", d.as_str()),
            SubprocessError::PermissionDenied(d) => join_with_colon("Permission denied", d.as_str()),
            SubprocessError::ExecutionFailed(d) => join_with_colon("Execution failed", d.as_str()),
            SubprocessError::IoError(d) => join_with_colon("I/O Error", d.as_str()),
            SubprocessError::OutputCaptureError(d) => join_with_colon(
                "Output capture error",
                d.as_str(),
            ),
        }
    }
}

impl From<SubprocessError> for String {
    /// The display string of the failure.
    fn from(error: SubprocessError) -> (s: String)
        ensures
            s@ == error@.display(),
    {
        error.to_string()
    }
}

/// What `from` returns is stated by its own postcondition, over the view of
/// the result: there is no spec function that builds a `String`.
impl vstd::std_specs::convert::FromSpecImpl<SubprocessError> for String {
    open spec fn obeys_from_spec() -> bool {
        false
    }

    open spec fn from_spec(error: SubprocessError) -> String {
        arbitrary()
    }
}

} // verus!
