//! Terminal outcomes of a tracked operation.
//!
//! A subprocess's termination is reported by the runner as a
//! [`WaitOutcome`]; together with the operation's cancellation flag it
//! is classified into the operation's result.  Cancellation supersedes
//! the exit-code classification: a cancelled operation is reported as
//! cancelled even when the process happened to exit successfully.

use vstd::prelude::*;
use crate::text::int_digits;

verus! {

/// How a subprocess that did run exited.
#[derive(Clone, Copy, Debug)]
pub struct ExitInfo {
    /// Whether the exit status counts as success (exit code zero).
    pub success: bool,
    /// The exit code, when the process exited with one.
    pub code: Option<i32>,
}

/// What the runner's wait logic observed for one operation.
#[derive(Debug)]
pub enum WaitOutcome {
    /// The command interpreter or target binary could not be started.
    SpawnFailed { detail: String },
    /// The worker carrying out the blocking wait could not be completed.
    TaskFailed { detail: String },
    /// The subprocess ran and exited.
    Exited { exit: ExitInfo },
}

/// Why an operation failed.
#[derive(Debug)]
pub enum OpError {
    /// The command interpreter or target binary could not be started.
    SpawnFailure { detail: String },
    /// The subprocess ran and exited with a failure code.
    NonZeroExit { label: String, code: Option<i32> },
    /// The operation's cancellation flag was observed set.
    Cancelled,
    /// A catalog lookup failed; nothing was registered or spawned.
    UnknownTarget { detail: String },
    /// The orchestration worker itself could not be completed.
    TaskFailure { detail: String },
}

/// The text of an exit code, `Some(<code>)` or `None`, as the failure
/// message quotes it.
pub open spec fn spec_code_text(code: Option<i32>) -> Seq<char> {
    match code {
        Some(c) => "Some("@ + int_digits(c as int) + ")"@,
        None => "None"@,
    }
}

/// The message reported for a successful operation.
pub open spec fn spec_success_message(label: Seq<char>) -> Seq<char> {
    label + " completed successfully"@
}

/// The message reported for a failed operation.
pub open spec fn spec_error_message(e: OpError) -> Seq<char> {
    match e {
        OpError::SpawnFailure { detail } => "Failed to start: "@ + detail@,
        OpError::NonZeroExit { label, code } => label@ + " failed with exit code: "@
            + spec_code_text(code),
        OpError::Cancelled => "Operation cancelled"@,
        OpError::UnknownTarget { detail } => detail@,
        OpError::TaskFailure { detail } => "Task failed: "@ + detail@,
    }
}

/// How a terminal outcome is classified, given the cancellation flag as
/// it was observed when the operation ended.  Cancellation supersedes
/// the exit-code classification but not a spawn or worker failure, where
/// no process ran to be cancelled.
pub open spec fn classified(
    cancelled: bool,
    w: WaitOutcome,
    label: Seq<char>,
    r: Result<String, OpError>,
) -> bool {
    match w {
        WaitOutcome::SpawnFailed { detail } => r matches Err(OpError::SpawnFailure { detail: d })
            && d@ == detail@,
        WaitOutcome::TaskFailed { detail } => r matches Err(OpError::TaskFailure { detail: d })
            && d@ == detail@,
        WaitOutcome::Exited { exit } => {
            if cancelled {
                r matches Err(OpError::Cancelled)
            } else if exit.success {
                r matches Ok(m) && m@ == spec_success_message(label)
            } else {
                r matches Err(OpError::NonZeroExit { label: l, code }) && l@ == label && code
                    == exit.code
            }
        },
    }
}

impl OpError {
    /// Renders the failure as the message the end event carries.
    pub fn message(&self) -> (r: String)
        ensures
            r@ == spec_error_message(*self),
    {
        match self {
            OpError::SpawnFailure { detail } => {
                let mut s = String::from_str("Failed to start: ");
                s.append(detail.as_str());
                s
            },
            OpError::NonZeroExit { label, code } => {
                let mut s = label.clone();
                s.append(" failed with exit code: ");
                match code {
                    Some(c) => {
                        s.append("Some(");
                        let digits = crate::text::i32_to_string(*c);
                        s.append(digits.as_str());
                        s.append(")");
                    },
                    None => {
                        s.append("None");
                    },
                }
                s
            },
            OpError::Cancelled => String::from_str("Operation cancelled"),
            OpError::UnknownTarget { detail } => detail.clone(),
            OpError::TaskFailure { detail } => {
                let mut s = String::from_str("Task failed: ");
                s.append(detail.as_str());
                s
            },
        }
    }
}

/// Classifies a terminal outcome into the operation's result.
pub fn classify(cancelled: bool, w: WaitOutcome, label: &str) -> (r: Result<String, OpError>)
    ensures
        classified(cancelled, w, label@, r),
{
    match w {
        WaitOutcome::SpawnFailed { detail } => Err(OpError::SpawnFailure { detail }),
        WaitOutcome::TaskFailed { detail } => Err(OpError::TaskFailure { detail }),
        WaitOutcome::Exited { exit } => {
            if cancelled {
                Err(OpError::Cancelled)
            } else if exit.success {
                let mut s = String::from_str(label);
                s.append(" completed successfully");
                Ok(s)
            } else {
                Err(OpError::NonZeroExit { label: String::from_str(label), code: exit.code })
            }
        },
    }
}

} // verus!
