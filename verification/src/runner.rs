//! Step runner result logic: converting what happened to the external
//! regenerating command — its exit status, its streamed output lines, its
//! measured duration — into a typed result.
//!
//! Spawning the child process, streaming its pipes and reading the clock
//! are the caller's work at the process boundary; this module decides,
//! for every value the caller can hand back, what the step's outcome is.
//! Output lines are kept in exactly the order they arrived, and the
//! duration is recorded whether the command succeeded or failed.

use vstd::prelude::*;

verus! {

/// How many trailing output lines a process failure keeps as its tail.
pub const TAIL_LINE_LIMIT: usize = 20;

/// The outcome of one successfully executed step command.
#[derive(Debug)]
pub struct StepResult {
    /// Combined stdout and stderr lines, in arrival order.
    pub lines: Vec<String>,
    pub exit_code: i32,
    pub duration_ms: u64,
}

/// A command that exited nonzero, or was terminated without an exit code
/// (`exit_code` is `None`). Not a panic: the caller classifies it.
#[derive(Debug)]
pub struct ProcessError {
    pub command: String,
    pub exit_code: Option<i32>,
    /// The last lines of combined output, in arrival order.
    pub tail: Vec<String>,
    pub duration_ms: u64,
}

/// The tail kept on failure: the whole output when it is short, else its
/// last `TAIL_LINE_LIMIT` lines.
pub open spec fn tail_of(lines: Seq<String>) -> Seq<String> {
    if lines.len() <= TAIL_LINE_LIMIT {
        lines
    } else {
        lines.skip(lines.len() - TAIL_LINE_LIMIT)
    }
}

/// Concludes one step execution. Exit code zero is the only success; any
/// other exit status becomes a `ProcessError` that names the command,
/// keeps the exit code and the output tail, and still records the
/// duration.
pub fn conclude(
    command: String,
    exit_code: Option<i32>,
    lines: Vec<String>,
    duration_ms: u64,
) -> (r: Result<StepResult, ProcessError>)
    ensures
        r is Ok <==> exit_code == Some(0i32),
        r matches Ok(res) ==> res.lines == lines && res.exit_code == 0 && res.duration_ms
            == duration_ms,
        r matches Err(e) ==> e.command == command && e.exit_code == exit_code && e.tail@ == tail_of(
            lines@,
        ) && e.duration_ms == duration_ms,
{
    match exit_code {
        Some(code) => {
            if code == 0 {
                Ok(StepResult { lines, exit_code: 0, duration_ms })
            } else {
                Err(ProcessError {
                    command,
                    exit_code: Some(code),
                    tail: keep_tail(lines),
                    duration_ms,
                })
            }
        },
        None => {
            Err(ProcessError { command, exit_code: None, tail: keep_tail(lines), duration_ms })
        },
    }
}

/// Keeps the last `TAIL_LINE_LIMIT` lines, in order.
fn keep_tail(lines: Vec<String>) -> (r: Vec<String>)
    ensures
        r@ == tail_of(lines@),
{
    let n = lines.len();
    if n <= TAIL_LINE_LIMIT {
        lines
    } else {
        let mut rest = lines;
        let ghost orig = rest@;
        let tail = rest.split_off(n - TAIL_LINE_LIMIT);
        proof {
            assert(tail@ =~= orig.skip(n - TAIL_LINE_LIMIT));
        }
        tail
    }
}

} // verus!
