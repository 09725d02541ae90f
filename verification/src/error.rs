//! The failures that end a run.

use vstd::prelude::*;
use vstd::string::*;

verus! {

/// A failure of configuration, of the wait phase, or of the machinery
/// around the supervised process.
#[derive(Debug, PartialEq, Eq)]
pub enum Error {
    /// A time span on the command line is malformed; holds what was wrong.
    InvalidDuration(String),
    /// An exit code in a retry filter is malformed; holds the offending text.
    InvalidExitCode(String),
    /// The wait phase passed its deadline.
    WaitTimeout,
    /// A health probe failed; holds the probe's reason.
    HealthCheckFailed(String),
    /// The command could not be started; holds the cause.
    ProcessSpawn(String),
    /// The command was ended by a signal.
    ProcessSignaled,
    /// The HTTP client could not be set up or used; holds the cause.
    Http(String),
    /// An operating-system call failed; holds the cause.
    Io(String),
}

/// An [`Error`] with each text taken by its characters.
pub enum ErrorView {
    InvalidDuration(Seq<char>),
    InvalidExitCode(Seq<char>),
    WaitTimeout,
    HealthCheckFailed(Seq<char>),
    ProcessSpawn(Seq<char>),
    ProcessSignaled,
    Http(Seq<char>),
    Io(Seq<char>),
}

impl ErrorView {
    /// The line shown to the operator for this failure.
    pub open spec fn text(self) -> Seq<char> {
        match self {
            ErrorView::InvalidDuration(m) => "invalid duration format: "@ + m,
            ErrorView::InvalidExitCode(m) => "invalid exit code: "@ + m,
            ErrorView::WaitTimeout => "wait phase timed out"@,
            ErrorView::HealthCheckFailed(m) => "health check failed: "@ + m,
            ErrorView::ProcessSpawn(m) => "process failed to start: "@ + m,
            ErrorView::ProcessSignaled => "process terminated by signal"@,
            ErrorView::Http(m) => "http request failed: "@ + m,
            ErrorView::Io(m) => "io error: "@ + m,
        }
    }
}

impl View for Error {
    type V = ErrorView;

    open spec fn view(&self) -> ErrorView {
        match self {
            Error::InvalidDuration(m) => ErrorView::InvalidDuration(m@),
            Error::InvalidExitCode(m) => ErrorView::InvalidExitCode(m@),
            Error::WaitTimeout => ErrorView::WaitTimeout,
            Error::HealthCheckFailed(m) => ErrorView::HealthCheckFailed(m@),
            Error::ProcessSpawn(m) => ErrorView::ProcessSpawn(m@),
            Error::ProcessSignaled => ErrorView::ProcessSignaled,
            Error::Http(m) => ErrorView::Http(m@),
            Error::Io(m) => ErrorView::Io(m@),
        }
    }
}

impl Error {
    /// The line shown to the operator for this failure.
    pub fn message(&self) -> (line: String)
        ensures
            line@ == self@.text(),
    {
        match self {
            Error::InvalidDuration(m) => String::from_str("invalid duration format: ").concat(
                m.as_str(),
            ),
            Error::InvalidExitCode(m) => String::from_str("invalid exit code: ").concat(
                m.as_str(),
            ),
            Error::WaitTimeout => String::from_str("wait phase timed out"),
            Error::HealthCheckFailed(m) => String::from_str("health check failed: ").concat(
                m.as_str(),
            ),
            Error::ProcessSpawn(m) => String::from_str("process failed to start: ").concat(
                m.as_str(),
            ),
            Error::ProcessSignaled => String::from_str("process terminated by signal"),
            Error::Http(m) => String::from_str("http request failed: ").concat(m.as_str()),
            Error::Io(m) => String::from_str("io error: ").concat(m.as_str()),
        }
    }
}

} // verus!
