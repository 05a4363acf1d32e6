//! The result of a capture-mode run: the exit state, both captures, and the
//! classification into success or failure.

use vstd::prelude::*;
use crate::drain::{capture_of, Drainer, Stream};

verus! {

/// How a child process ended: its exit code, or none where a signal ended it.
#[derive(Clone, Copy, Debug, PartialEq, Eq, Structural)]
pub struct ExitState {
    pub code: Option<i32>,
}

pub open spec fn succeeded(s: ExitState) -> bool {
    s.code == Some(0i32)
}

impl ExitState {
    /// Success is termination with exit code zero; a signal is no success.
    pub fn success(&self) -> (r: bool)
        ensures
            r == succeeded(*self),
    {
        match self.code {
            Some(c) => c == 0,
            None => false,
        }
    }
}

/// What a finished child left: how it ended and all it wrote on each stream.
#[derive(Debug)]
pub struct CapturedOutput {
    pub status: ExitState,
    pub stdout: Vec<u8>,
    pub stderr: Vec<u8>,
}

/// Why a command did not give a captured result.
#[derive(Debug)]
pub enum ExecError {
    /// The executable could not be launched.
    Spawn { command: String, reason: String },
    /// The process ran and ended without success; what it wrote is kept.
    Failed { command: String, output: CapturedOutput },
}

pub open spec fn error_text(e: ExecError) -> Seq<char> {
    match e {
        ExecError::Spawn { command, reason } => "failed to spawn "@ + command@ + ": "@ + reason@,
        ExecError::Failed { command, .. } => "failed to run "@ + command@,
    }
}

impl ExecError {
    /// The command that the error is about.
    pub fn command(&self) -> (r: &String)
        ensures
            r == match *self {
                ExecError::Spawn { command, .. } => command,
                ExecError::Failed { command, .. } => command,
            },
    {
        match self {
            ExecError::Spawn { command, .. } => command,
            ExecError::Failed { command, .. } => command,
        }
    }

    /// A one-line description of the error.
    pub fn message(&self) -> (r: String)
        ensures
            r@ == error_text(*self),
    {
        proof {
            reveal_strlit("failed to spawn ");
            reveal_strlit(": ");
            reveal_strlit("failed to run ");
        }
        match self {
            ExecError::Spawn { command, reason } => {
                let mut text = String::from_str("failed to spawn ");
                text.append(command.as_str());
                text.append(": ");
                text.append(reason.as_str());
                text
            },
            ExecError::Failed { command, .. } => {
                let mut text = String::from_str("failed to run ");
                text.append(command.as_str());
                text
            },
        }
    }
}

/// The error for a command whose executable could not be launched.
pub fn spawn_failure(program: &str, reason: String) -> (r: ExecError)
    ensures
        r matches ExecError::Spawn { command, reason: why } && command@ == program@ && why == reason,
{
    ExecError::Spawn { command: String::from_str(program), reason }
}

/// Builds the result of a run from its exit state and the two drainers,
/// both at end of stream. Success gives the captures; any other ending gives
/// an error that names the command and still holds the captures.
pub fn assemble(program: &str, status: ExitState, stdout: Drainer, stderr: Drainer) -> (r: Result<
    CapturedOutput,
    ExecError,
>)
    requires
        stdout.wf(),
        stderr.wf(),
        stdout.stream_spec() == Stream::Stdout,
        stderr.stream_spec() == Stream::Stderr,
        stdout.finished_spec(),
        stderr.finished_spec(),
    ensures
        r is Ok <==> succeeded(status),
        r matches Ok(out) ==> {
            &&& out.status == status
            &&& out.stdout@ == capture_of(stdout.history())
            &&& out.stderr@ == capture_of(stderr.history())
        },
        r matches Err(e) ==> e matches ExecError::Failed { command, output } && {
            &&& command@ == program@
            &&& output.status == status
            &&& output.stdout@ == capture_of(stdout.history())
            &&& output.stderr@ == capture_of(stderr.history())
        },
{
    let output = CapturedOutput {
        status,
        stdout: stdout.into_captured(),
        stderr: stderr.into_captured(),
    };
    if status.success() {
        Ok(output)
    } else {
        Err(ExecError::Failed { command: String::from_str(program), output })
    }
}

} // verus!
