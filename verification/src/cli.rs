//! The command line, as it stands after the flags have been read and before
//! any value in it has been checked.

use vstd::prelude::*;

verus! {

/// The raw command line: targets and flags by phase, then the command to
/// supervise. Time spans and exit-code lists are still text.
#[derive(Debug)]
pub struct Args {
    /// TCP endpoints (`host:port`) that must accept a connection before the
    /// command starts.
    pub wait_tcp: Vec<String>,
    /// Limit for one connection attempt of the wait phase.
    pub wait_tcp_timeout: String,
    /// URLs that must answer with a 2xx status before the command starts.
    pub wait_http: Vec<String>,
    /// Limit for one request of the wait phase.
    pub wait_http_timeout: String,
    /// Paths that must exist before the command starts.
    pub wait_file: Vec<String>,
    /// Pauses taken, in order, before the first probe of the wait phase.
    pub wait_delay: Vec<String>,
    /// Limit for the whole wait phase.
    pub wait_timeout: String,
    /// URLs polled while the command runs.
    pub watch_http: Vec<String>,
    /// Time between two polls of a watched URL.
    pub watch_http_interval: String,
    /// Limit for one request of the watch phase.
    pub watch_http_timeout: String,
    /// TCP endpoints polled while the command runs.
    pub watch_tcp: Vec<String>,
    /// Time between two polls of a watched endpoint.
    pub watch_tcp_interval: String,
    /// Limit for one connection attempt of the watch phase.
    pub watch_tcp_timeout: String,
    /// Paths polled while the command runs.
    pub watch_file: Vec<String>,
    /// Time between two polls of a watched path.
    pub watch_file_interval: String,
    /// Longest time one execution of the command may take.
    pub watch_timeout: Option<String>,
    /// Retries after a failure: absent for none, zero for no limit.
    pub retry_times: Option<u32>,
    /// Pause before a retry.
    pub retry_delay: String,
    /// Whether the pause doubles after each retry.
    pub retry_backoff: bool,
    /// Comma-separated exit codes that call for a retry.
    pub retry_if: Vec<String>,
    /// Whether the wait phase runs again before each retry.
    pub retry_with_wait: bool,
    /// File that receives the supervisor's own log.
    pub log: Option<String>,
    /// The command to supervise and its arguments.
    pub command: Vec<String>,
}

} // verus!
