use conductor::events::{Event, StreamKind};
use conductor::outcome::{classify, ExitInfo, OpError, WaitOutcome};
use conductor::registry::Registry;
use conductor::runner::{finish_operation, run_tracked, start_operation, ScriptedProcess};

fn ran(stdout: &[&str], stderr: &[&str], success: bool, code: Option<i32>) -> ScriptedProcess {
    ScriptedProcess::Runs {
        stdout: stdout.iter().map(|s| s.to_string()).collect(),
        stderr: stderr.iter().map(|s| s.to_string()).collect(),
        exit: ExitInfo { success, code },
    }
}

#[test]
fn tracked_run_emits_start_lines_end() {
    let mut reg = Registry::new();
    let (events, result) = run_tracked(
        &mut reg,
        "Installing pandoc",
        "brew install pandoc 2>&1",
        &ran(&["Downloading..."], &[], true, Some(0)),
    );
    assert_eq!(events.len(), 3);
    match &events[0] {
        Event::Start { id, label, command } => {
            assert_eq!(*id, 1);
            assert_eq!(label, "Installing pandoc");
            assert_eq!(command, "brew install pandoc 2>&1");
        }
        _ => panic!("first event must be the start event"),
    }
    match &events[1] {
        Event::Line { id, stream, text } => {
            assert_eq!(*id, 1);
            assert!(matches!(stream, StreamKind::Stdout));
            assert_eq!(text, "Downloading...");
        }
        _ => panic!("second event must be the line event"),
    }
    match &events[2] {
        Event::End { id, success, message } => {
            assert_eq!(*id, 1);
            assert!(*success);
            assert_eq!(message, "Installing pandoc completed successfully");
        }
        _ => panic!("last event must be the end event"),
    }
    assert_eq!(result.unwrap(), "Installing pandoc completed successfully");
    assert_eq!(reg.len(), 0);
}

#[test]
fn line_events_preserve_per_stream_order() {
    let mut reg = Registry::new();
    let (events, _result) = run_tracked(
        &mut reg,
        "Installing tectonic",
        "brew install tectonic 2>&1",
        &ran(&["A", "B", "C"], &["X", "Y"], true, Some(0)),
    );
    let stdout_lines: Vec<&str> = events
        .iter()
        .filter_map(|e| match e {
            Event::Line { stream: StreamKind::Stdout, text, .. } => Some(text.as_str()),
            _ => None,
        })
        .collect();
    let stderr_lines: Vec<&str> = events
        .iter()
        .filter_map(|e| match e {
            Event::Line { stream: StreamKind::Stderr, text, .. } => Some(text.as_str()),
            _ => None,
        })
        .collect();
    assert_eq!(stdout_lines, ["A", "B", "C"]);
    assert_eq!(stderr_lines, ["X", "Y"]);
}

#[test]
fn exactly_one_end_event_and_it_is_last() {
    let mut reg = Registry::new();
    let (events, _result) = run_tracked(
        &mut reg,
        "Installing pandoc",
        "brew install pandoc 2>&1",
        &ran(&["a", "b"], &["c"], false, Some(1)),
    );
    let ends = events
        .iter()
        .filter(|e| matches!(e, Event::End { .. }))
        .count();
    assert_eq!(ends, 1);
    assert!(matches!(events.first().unwrap(), Event::Start { .. }));
    assert!(matches!(events.last().unwrap(), Event::End { .. }));
}

#[test]
fn spawn_failure_is_distinct_and_still_ends() {
    let mut reg = Registry::new();
    let (events, result) = run_tracked(
        &mut reg,
        "Installing pandoc",
        "brew install pandoc 2>&1",
        &ScriptedProcess::FailsToSpawn { detail: "No such file or directory".to_string() },
    );
    assert_eq!(events.len(), 2);
    match &events[1] {
        Event::End { success, message, .. } => {
            assert!(!*success);
            assert_eq!(message, "Failed to start: No such file or directory");
        }
        _ => panic!("spawn failure must still produce an end event"),
    }
    match result {
        Err(OpError::SpawnFailure { detail }) => {
            assert_eq!(detail, "No such file or directory");
        }
        _ => panic!("spawn failure must be reported as such"),
    }
    assert_eq!(reg.len(), 0);
}

#[test]
fn nonzero_exit_reports_the_code() {
    let mut reg = Registry::new();
    let (events, result) = run_tracked(
        &mut reg,
        "Uninstalling texlive",
        "brew uninstall --cask basictex 2>&1 || brew uninstall --cask mactex 2>&1",
        &ran(&[], &["no such cask"], false, Some(2)),
    );
    match &events[events.len() - 1] {
        Event::End { success, message, .. } => {
            assert!(!*success);
            assert_eq!(message, "Uninstalling texlive failed with exit code: Some(2)");
        }
        _ => panic!("missing end event"),
    }
    match result {
        Err(OpError::NonZeroExit { label, code }) => {
            assert_eq!(label, "Uninstalling texlive");
            assert_eq!(code, Some(2));
        }
        _ => panic!("a failure exit must be reported as a non-zero exit"),
    }
}

#[test]
fn signal_termination_reports_no_code() {
    let r = classify(
        false,
        WaitOutcome::Exited { exit: ExitInfo { success: false, code: None } },
        "Installing pandoc",
    );
    match r {
        Err(e) => assert_eq!(e.message(), "Installing pandoc failed with exit code: None"),
        Ok(_) => panic!("a failure exit must not classify as success"),
    }
}

#[test]
fn worker_failure_reports_as_task_failure() {
    let r = classify(
        false,
        WaitOutcome::TaskFailed { detail: "worker torn down".to_string() },
        "Installing pandoc",
    );
    match r {
        Err(OpError::TaskFailure { detail }) => {
            assert_eq!(detail, "worker torn down");
            assert_eq!(
                OpError::TaskFailure { detail }.message(),
                "Task failed: worker torn down"
            );
        }
        _ => panic!("a worker failure must be reported as a task failure"),
    }
}

#[test]
fn cancel_of_running_operation_supersedes_success_exit() {
    let mut reg = Registry::new();
    let (op, _start) = start_operation(&mut reg, "Installing pandoc", "brew install pandoc 2>&1");
    assert!(reg.cancel(op.id));
    let (end, result) = finish_operation(
        &mut reg,
        &op,
        WaitOutcome::Exited { exit: ExitInfo { success: true, code: Some(0) } },
    );
    match end {
        Event::End { success, message, .. } => {
            assert!(!success);
            assert_eq!(message, "Operation cancelled");
        }
        _ => panic!("missing end event"),
    }
    assert!(matches!(result, Err(OpError::Cancelled)));
    assert_eq!(reg.len(), 0);
}

#[test]
fn concurrent_operations_get_distinct_ids_and_cancel_is_local() {
    let mut reg = Registry::new();
    let (op1, _s1) = start_operation(&mut reg, "Installing pandoc", "brew install pandoc 2>&1");
    let (op2, _s2) = start_operation(&mut reg, "Installing tectonic", "brew install tectonic 2>&1");
    assert!(op1.id != op2.id);
    assert!(reg.cancel(op1.id));
    let (_end2, result2) = finish_operation(
        &mut reg,
        &op2,
        WaitOutcome::Exited { exit: ExitInfo { success: true, code: Some(0) } },
    );
    let (_end1, result1) = finish_operation(
        &mut reg,
        &op1,
        WaitOutcome::Exited { exit: ExitInfo { success: true, code: Some(0) } },
    );
    assert_eq!(result2.unwrap(), "Installing tectonic completed successfully");
    assert!(matches!(result1, Err(OpError::Cancelled)));
    assert_eq!(reg.len(), 0);
}
