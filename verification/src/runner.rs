//! The tracked-operation runner.
//!
//! An operation's life is: register a cancellation flag and emit the
//! start event, relay the subprocess's output lines as line events,
//! then classify the terminal outcome, drop the registry entry, and
//! emit the end event.  The decisions live here, verified; the caller
//! supplies what only the outside world knows — the subprocess's
//! observable behaviour — either incrementally ([`start_operation`],
//! [`line_event`], [`finish_operation`]) or as one [`ScriptedProcess`]
//! value ([`run_tracked`]).

use vstd::prelude::*;
use crate::events::{Event, StreamKind, is_start_event, is_line_event, is_end_event};
use crate::outcome::{ExitInfo, WaitOutcome, OpError, classify, classified, spec_error_message};
use crate::registry::Registry;

verus! {

/// One tracked external-process invocation.
pub struct Operation {
    /// The registry id under which the operation's flag is held.
    pub id: u32,
    /// Human-readable description of the operation's intent.
    pub label: String,
    /// The literal shell command line being executed.
    pub command: String,
}

/// The observable behaviour of one subprocess, as a plain value: either
/// the spawn failed, or the process ran, wrote these lines to its two
/// streams, and exited so.
pub enum ScriptedProcess {
    /// The command interpreter or target binary could not be started.
    FailsToSpawn { detail: String },
    /// The process ran to completion.
    Runs { stdout: Vec<String>, stderr: Vec<String>, exit: ExitInfo },
}

/// What the runner's wait logic observes of a scripted subprocess.
pub open spec fn wait_outcome_of(p: ScriptedProcess) -> WaitOutcome {
    match p {
        ScriptedProcess::FailsToSpawn { detail } => WaitOutcome::SpawnFailed { detail },
        ScriptedProcess::Runs { stdout, stderr, exit } => WaitOutcome::Exited { exit },
    }
}

/// How many line events a scripted subprocess produces.
pub open spec fn line_count(p: ScriptedProcess) -> int {
    match p {
        ScriptedProcess::FailsToSpawn { detail } => 0,
        ScriptedProcess::Runs { stdout, stderr, exit } => stdout@.len() + stderr@.len() as int,
    }
}

/// Whether this id's cancellation flag is registered and set.
pub open spec fn flag_set(m: Map<u32, bool>, id: u32) -> bool {
    m.contains_key(id) && m[id]
}

/// The message the end event carries for this result.
pub open spec fn end_message(r: Result<String, OpError>) -> Seq<char> {
    match r {
        Ok(m) => m@,
        Err(e) => spec_error_message(e),
    }
}

/// The full event trace of one tracked run of a scripted subprocess:
/// one start event first, one line event per line written (stdout's
/// lines in order, then stderr's in order), and exactly one end event,
/// last, carrying the result's classification.
pub open spec fn tracked_run_events(
    events: Seq<Event>,
    id: u32,
    label: Seq<char>,
    command: Seq<char>,
    p: ScriptedProcess,
    r: Result<String, OpError>,
) -> bool {
    &&& events.len() == 2 + line_count(p)
    &&& is_start_event(events[0], id, label, command)
    &&& forall|i: int| 0 < i < events.len() - 1 ==> events[i] is Line
    &&& (p matches ScriptedProcess::Runs { stdout, stderr, exit } ==> ({
        &&& forall|j: int|
            0 <= j < stdout@.len() ==> is_line_event(
                events[1 + j],
                id,
                StreamKind::Stdout,
                stdout@[j]@,
            )
        &&& forall|j: int|
            0 <= j < stderr@.len() ==> is_line_event(
                events[1 + stdout@.len() + j],
                id,
                StreamKind::Stderr,
                stderr@[j]@,
            )
    }))
    &&& is_end_event(events[events.len() - 1], id, r is Ok, end_message(r))
}

/// Law: once an operation's cancellation flag has been set while the
/// operation was registered, its terminal classification is Cancelled,
/// whatever exit the subprocess reached — even a successful one.
pub proof fn lemma_cancel_supersedes_exit(
    m: Map<u32, bool>,
    id: u32,
    w: WaitOutcome,
    label: Seq<char>,
    r: Result<String, OpError>,
)
    requires
        m.contains_key(id),
        w is Exited,
        classified(flag_set(m.insert(id, true), id), w, label, r),
    ensures
        r matches Err(OpError::Cancelled),
{
}

/// Law: a cancel request is local to its id: every other operation's
/// flag reads exactly as before, so cancelling one operation cannot
/// change another's classification.
pub proof fn lemma_cancel_is_local(m: Map<u32, bool>, id: u32, other: u32)
    requires
        id != other,
    ensures
        flag_set(m.insert(id, true), other) == flag_set(m, other),
{
}

/// Law: an operation begun after any sweep of cancellations starts
/// with a clear flag: cancelling, one by one or all at once, reaches
/// only the operations registered when it happened.
pub proof fn lemma_new_operation_starts_clear(m: Map<u32, bool>, id: u32)
    ensures
        !flag_set(m.insert(id, false), id),
{
}

/// Law: a tracked run's trace carries exactly one end event, and it is
/// the last event — after the start event and after every line event.
pub proof fn lemma_exactly_one_end(
    events: Seq<Event>,
    id: u32,
    label: Seq<char>,
    command: Seq<char>,
    p: ScriptedProcess,
    r: Result<String, OpError>,
)
    requires
        tracked_run_events(events, id, label, command, p, r),
    ensures
        events.len() >= 2,
        events[events.len() - 1] is End,
        forall|i: int| 0 <= i < events.len() - 1 ==> !(events[i] is End),
{
    assert(events[0] is Start);
}

/// Registers a new operation and builds its start event.  The entry is
/// in the registry from here on, so a cancel request arriving at any
/// later point is never lost.
pub fn start_operation(reg: &mut Registry, label: &str, command: &str) -> (r: (Operation, Event))
    requires
        old(reg).wf(),
        old(reg).spec_next_id() < u32::MAX,
    ensures
        final(reg).wf(),
        r.0.id == old(reg).spec_next_id(),
        !old(reg)@.contains_key(r.0.id),
        final(reg)@ == old(reg)@.insert(r.0.id, false),
        final(reg).spec_next_id() == r.0.id + 1,
        r.0.label@ == label@,
        r.0.command@ == command@,
        is_start_event(r.1, r.0.id, label@, command@),
{
    let id = reg.begin();
    let op = Operation {
        id,
        label: String::from_str(label),
        command: String::from_str(command),
    };
    let ev = Event::Start {
        id,
        label: String::from_str(label),
        command: String::from_str(command),
    };
    (op, ev)
}

/// Builds the line event for one complete line read from one of the
/// operation's output streams.
pub fn line_event(op: &Operation, stream: StreamKind, text: &str) -> (e: Event)
    ensures
        is_line_event(e, op.id, stream, text@),
{
    Event::Line { id: op.id, stream, text: String::from_str(text) }
}

/// Ends a tracked operation: consults and removes its registry entry,
/// classifies the outcome (cancellation supersedes the exit code), and
/// builds the end event.  The entry is removed whatever the outcome.
pub fn finish_operation(reg: &mut Registry, op: &Operation, w: WaitOutcome) -> (r: (
    Event,
    Result<String, OpError>,
))
    requires
        old(reg).wf(),
    ensures
        final(reg).wf(),
        final(reg)@ == old(reg)@.remove(op.id),
        final(reg).spec_next_id() == old(reg).spec_next_id(),
        classified(flag_set(old(reg)@, op.id), w, op.label@, r.1),
        is_end_event(r.0, op.id, r.1 is Ok, end_message(r.1)),
{
    let cancelled = match reg.is_cancelled(op.id) {
        Some(b) => b,
        None => false,
    };
    reg.end(op.id);
    let res = classify(cancelled, w, op.label.as_str());
    let message = match &res {
        Ok(m) => m.clone(),
        Err(e) => e.message(),
    };
    let success = match &res {
        Ok(_) => true,
        Err(_) => false,
    };
    let ev = Event::End { id: op.id, success, message };
    (ev, res)
}

/// Runs one whole tracked operation against a scripted subprocess:
/// start event, the subprocess's lines as line events (stdout first,
/// then stderr; order within each stream preserved exactly), then the
/// end event.  The registry is left as it was found, the id having been
/// spent: begun before the subprocess ran and ended after it.
pub fn run_tracked(
    reg: &mut Registry,
    label: &str,
    command: &str,
    process: &ScriptedProcess,
) -> (r: (Vec<Event>, Result<String, OpError>))
    requires
        old(reg).wf(),
        old(reg).spec_next_id() < u32::MAX,
    ensures
        final(reg).wf(),
        final(reg)@ == old(reg)@,
        final(reg).spec_next_id() == old(reg).spec_next_id() + 1,
        tracked_run_events(r.0@, old(reg).spec_next_id(), label@, command@, *process, r.1),
        classified(false, wait_outcome_of(*process), label@, r.1),
{
    let ghost reg0 = *reg;
    let (op, start_ev) = start_operation(reg, label, command);
    let mut events: Vec<Event> = Vec::new();
    events.push(start_ev);
    let w = match process {
        ScriptedProcess::FailsToSpawn { detail } => WaitOutcome::SpawnFailed {
            detail: detail.clone(),
        },
        ScriptedProcess::Runs { stdout, stderr, exit } => {
            let n_out = stdout.len();
            let mut i: usize = 0;
            while i < n_out
                invariant
                    n_out == stdout@.len(),
                    i <= n_out,
                    op.id == old(reg).spec_next_id(),
                    events@.len() == 1 + i,
                    events@[0] == start_ev,
                    forall|j: int| 1 <= j < events@.len() ==> #[trigger] events@[j] is Line,
                    forall|j: int|
                        0 <= j < i ==> is_line_event(
                            events@[1 + j],
                            op.id,
                            StreamKind::Stdout,
                            stdout@[j]@,
                        ),
                decreases n_out - i,
            {
                let ev = line_event(&op, StreamKind::Stdout, stdout[i].as_str());
                events.push(ev);
                i = i + 1;
            }
            let n_err = stderr.len();
            let mut k: usize = 0;
            while k < n_err
                invariant
                    n_out == stdout@.len(),
                    n_err == stderr@.len(),
                    k <= n_err,
                    op.id == old(reg).spec_next_id(),
                    events@.len() == 1 + n_out + k,
                    events@[0] == start_ev,
                    forall|j: int| 1 <= j < events@.len() ==> #[trigger] events@[j] is Line,
                    forall|j: int|
                        0 <= j < n_out ==> is_line_event(
                            events@[1 + j],
                            op.id,
                            StreamKind::Stdout,
                            stdout@[j]@,
                        ),
                    forall|j: int|
                        0 <= j < k ==> is_line_event(
                            events@[1 + n_out + j],
                            op.id,
                            StreamKind::Stderr,
                            stderr@[j]@,
                        ),
                decreases n_err - k,
            {
                let ev = line_event(&op, StreamKind::Stderr, stderr[k].as_str());
                events.push(ev);
                k = k + 1;
            }
            WaitOutcome::Exited { exit: *exit }
        },
    };
    proof {
        assert(w == wait_outcome_of(*process));
        assert(!flag_set(reg@, op.id));
    }
    let (end_ev, res) = finish_operation(reg, &op, w);
    events.push(end_ev);
    proof {
        assert(reg@ =~= reg0@);
        assert(forall|i: int|
            0 < i < events@.len() - 1 ==> #[trigger] events@[i] is Line);
    }
    (events, res)
}

} // verus!
