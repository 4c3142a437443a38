//! Orchestration core for running external commands on behalf of a
//! document-conversion front end.
//!
//! The library tracks each external-process invocation as an *operation*:
//! it allocates an identifier, keeps a cancellation flag in a shared
//! registry, classifies the terminal outcome of the subprocess, and
//! produces the start/line/end events that an observer consumes.  The
//! subprocess itself, and every other side effect, stays outside: the
//! functions here work on plain values (command text, captured output
//! lines, exit information) and are verified against their contracts.

pub mod catalog;
pub mod convert;
pub mod events;
pub mod fonts;
pub mod outcome;
pub mod pathres;
pub mod registry;
pub mod runner;
pub mod text;
pub mod workflow;
