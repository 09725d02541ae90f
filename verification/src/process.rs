//! What the supervisor knows of the supervised process: the command that
//! starts it, how it ended, and the exit code the supervisor ends with.

use crate::error::{Error, ErrorView};
use vstd::prelude::*;
use vstd::string::*;

verus! {

/// How a process ended: with an exit code, or without one where a signal
/// ended it.
#[derive(Clone, Copy, Debug, PartialEq, Eq)]
pub struct ExitStatus {
    pub code: Option<i32>,
}

impl ExitStatus {
    /// The way a process ends that reports `code`, or that a signal ended
    /// where `code` is absent.
    pub fn new(code: Option<i32>) -> (status: ExitStatus)
        ensures
            status.code == code,
    {
        ExitStatus { code }
    }

    /// The exit code, absent where a signal ended the process.
    pub fn code(&self) -> (code: Option<i32>)
        ensures
            code == self.code,
    {
        self.code
    }

    /// Whether the process ended with exit code zero.
    pub fn success(&self) -> (ok: bool)
        ensures
            ok == (self.code == Some(0i32)),
    {
        match self.code {
            Some(code) => code == 0,
            None => false,
        }
    }
}

/// The exit code with which the supervisor ends for a process that ended
/// with `code`: zero for zero, the code itself held within 1 to 255
/// otherwise, and 1 where a signal ended the process.
pub open spec fn exit_code_for(code: Option<i32>) -> u8 {
    match code {
        Some(c) => if c == 0 {
            0u8
        } else if c < 1 {
            1u8
        } else if c > 255 {
            255u8
        } else {
            c as u8
        },
        None => 1u8,
    }
}

/// The exit code with which the supervisor ends once the process has ended
/// with `status` and is not run again.
pub fn exit_code_from_status(status: ExitStatus) -> (code: u8)
    ensures
        code == exit_code_for(status.code),
        code == 0 <==> status.code == Some(0i32),
{
    match status.code {
        Some(c) => {
            if c == 0 {
                0
            } else if c < 1 {
                1
            } else if c > 255 {
                255
            } else {
                c as u8
            }
        },
        None => 1,
    }
}

/// The program that `command` starts: its first word. A command without
/// words cannot be started.
pub fn program_of(command: &[String]) -> (r: Result<&String, Error>)
    ensures
        match r {
            Ok(program) => command@.len() > 0 && *program == command@[0],
            Err(e) => command@.len() == 0 && e@ == ErrorView::ProcessSpawn(
                "command cannot be empty"@,
            ),
        },
{
    if command.len() == 0 {
        Err(Error::ProcessSpawn(String::from_str("command cannot be empty")))
    } else {
        Ok(&command[0])
    }
}

} // verus!
