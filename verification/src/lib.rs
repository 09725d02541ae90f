//! Decision logic of a process supervisor that runs a command in three
//! phases: it waits until the command's dependencies are reachable, watches
//! the running command and ends it when it becomes unhealthy, and runs it
//! again after a failure.
//!
//! The library decides and never acts: it does no input or output, reads no
//! clock and starts no process. The program around it carries out one action
//! at a time and reports what happened.
//!
//! - [`duration`] and [`text`]: time spans and the text they are written in.
//! - [`cli`], [`config`] and [`error`]: the raw command line, the validated
//!   configuration read from it, and what can be wrong.
//! - [`check`]: the probes and how their answers are judged.
//! - [`wait`], [`watch`], [`retry`] and [`supervisor`]: the three phases and
//!   the loop that joins them.
//! - [`process`]: how a process ended and the exit code that stands for it.

pub mod check;
pub mod cli;
pub mod config;
pub mod duration;
pub mod error;
pub mod process;
pub mod retry;
pub mod supervisor;
pub mod text;
pub mod wait;
pub mod watch;
