use conductor::events::{Event, StreamKind};
use conductor::outcome::{ExitInfo, OpError};
use conductor::registry::Registry;
use conductor::runner::ScriptedProcess;
use conductor::workflow::{
    cancel_all_message, install_dependency, reinstall_dependency, uninstall_dependency,
};

fn exits(success: bool, code: i32) -> ScriptedProcess {
    ScriptedProcess::Runs {
        stdout: Vec::new(),
        stderr: Vec::new(),
        exit: ExitInfo { success, code: Some(code) },
    }
}

#[test]
fn install_runs_the_catalog_command() {
    let mut reg = Registry::new();
    let process = ScriptedProcess::Runs {
        stdout: vec!["Downloading...".to_string()],
        stderr: Vec::new(),
        exit: ExitInfo { success: true, code: Some(0) },
    };
    let (events, result) = install_dependency(&mut reg, "pandoc", "brew", &process);
    assert_eq!(events.len(), 3);
    match &events[0] {
        Event::Start { label, command, .. } => {
            assert_eq!(label, "Installing pandoc");
            assert_eq!(command, "brew install pandoc 2>&1");
        }
        _ => panic!("missing start event"),
    }
    match &events[1] {
        Event::Line { stream, text, .. } => {
            assert!(matches!(stream, StreamKind::Stdout));
            assert_eq!(text, "Downloading...");
        }
        _ => panic!("missing line event"),
    }
    match &events[2] {
        Event::End { success, .. } => assert!(*success),
        _ => panic!("missing end event"),
    }
    assert_eq!(result.unwrap(), "Installing pandoc completed successfully");
}

#[test]
fn install_with_unknown_method_fails_fast_and_silent() {
    let mut reg = Registry::new();
    let (events, result) = install_dependency(&mut reg, "pandoc", "ftp", &exits(true, 0));
    assert!(events.is_empty());
    match result {
        Err(OpError::UnknownTarget { detail }) => {
            assert_eq!(detail, "Unknown install method ftp for pandoc");
        }
        _ => panic!("an unregistered method must fail as an unknown target"),
    }
    // nothing was registered: the next operation still gets the first id
    let id = reg.begin();
    assert_eq!(id, 1);
}

#[test]
fn uninstall_runs_the_catalog_command() {
    let mut reg = Registry::new();
    let (events, result) = uninstall_dependency(&mut reg, "pandoc", &exits(true, 0));
    assert_eq!(events.len(), 2);
    match &events[0] {
        Event::Start { label, command, .. } => {
            assert_eq!(label, "Uninstalling pandoc");
            assert_eq!(command, "brew uninstall pandoc 2>&1");
        }
        _ => panic!("missing start event"),
    }
    assert_eq!(result.unwrap(), "Uninstalling pandoc completed successfully");
}

#[test]
fn uninstall_of_unknown_dependency_fails_fast() {
    let mut reg = Registry::new();
    let (events, result) = uninstall_dependency(&mut reg, "mystery", &exits(true, 0));
    assert!(events.is_empty());
    match result {
        Err(OpError::UnknownTarget { detail }) => {
            assert_eq!(detail, "Unknown dependency: mystery");
        }
        _ => panic!("an unknown dependency must fail as an unknown target"),
    }
}

#[test]
fn reinstall_ignores_the_uninstall_outcome() {
    let mut reg = Registry::new();
    let (events, result) =
        reinstall_dependency(&mut reg, "tectonic", "brew", &exits(false, 1), &exits(true, 0));
    assert_eq!(events.len(), 4);
    match &events[0] {
        Event::Start { id, label, command } => {
            assert_eq!(*id, 1);
            assert_eq!(label, "Uninstalling tectonic");
            assert_eq!(
                command,
                "brew uninstall tectonic 2>&1 || cargo uninstall tectonic 2>&1"
            );
        }
        _ => panic!("missing uninstall start event"),
    }
    match &events[1] {
        Event::End { success, message, .. } => {
            assert!(!*success);
            assert_eq!(message, "Uninstalling tectonic failed with exit code: Some(1)");
        }
        _ => panic!("missing uninstall end event"),
    }
    match &events[2] {
        Event::Start { id, label, command } => {
            assert_eq!(*id, 2);
            assert_eq!(label, "Reinstalling tectonic");
            assert_eq!(command, "brew install tectonic 2>&1");
        }
        _ => panic!("missing install start event"),
    }
    match &events[3] {
        Event::End { success, .. } => assert!(*success),
        _ => panic!("missing install end event"),
    }
    // the failed uninstall is not the overall result
    assert_eq!(result.unwrap(), "Reinstalling tectonic completed successfully");
}

#[test]
fn reinstall_of_unknown_dependency_does_nothing() {
    let mut reg = Registry::new();
    let (events, result) =
        reinstall_dependency(&mut reg, "mystery", "brew", &exits(true, 0), &exits(true, 0));
    assert!(events.is_empty());
    assert!(matches!(result, Err(OpError::UnknownTarget { .. })));
}

#[test]
fn reinstall_with_unknown_method_still_uninstalls_first() {
    let mut reg = Registry::new();
    let (events, result) =
        reinstall_dependency(&mut reg, "pandoc", "ftp", &exits(true, 0), &exits(true, 0));
    // the uninstall step ran (start + end), then the lookup failed
    assert_eq!(events.len(), 2);
    match result {
        Err(OpError::UnknownTarget { detail }) => {
            assert_eq!(detail, "Unknown install method ftp for pandoc");
        }
        _ => panic!("an unregistered method must fail as an unknown target"),
    }
}

#[test]
fn cancel_all_acknowledgement_counts_operations() {
    assert_eq!(cancel_all_message(0), "Cancelling 0 operation(s)");
    assert_eq!(cancel_all_message(3), "Cancelling 3 operation(s)");
    assert_eq!(cancel_all_message(12), "Cancelling 12 operation(s)");
}
