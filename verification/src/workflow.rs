//! The composed operations the caller sees: install, uninstall, and
//! reinstall (best-effort uninstall, then install).
//!
//! Each resolves its catalog entry first; an unknown dependency or
//! install method fails immediately with [`OpError::UnknownTarget`] —
//! nothing is registered, no event is produced.  A reinstall runs the
//! uninstall step and deliberately ignores its outcome (a dependency
//! that was never installed must not block the install), then runs the
//! install step, whose result is the result of the whole operation.

use vstd::prelude::*;
use crate::catalog::{
    get_install_command,
    get_uninstall_command,
    spec_install_command,
    spec_uninstall_command,
};
use crate::events::Event;
use crate::outcome::{OpError, classified};
use crate::registry::Registry;
use crate::runner::{ScriptedProcess, line_count, run_tracked, tracked_run_events, wait_outcome_of};

verus! {

/// The label of a tracked install operation.
pub open spec fn install_label(name: Seq<char>) -> Seq<char> {
    "Installing "@ + name
}

/// The label of a tracked uninstall operation.
pub open spec fn uninstall_label(name: Seq<char>) -> Seq<char> {
    "Uninstalling "@ + name
}

/// The label of the install step of a reinstall.
pub open spec fn reinstall_label(name: Seq<char>) -> Seq<char> {
    "Reinstalling "@ + name
}

/// The detail text of the failure for an unknown install method.
pub open spec fn unknown_install_detail(name: Seq<char>, method: Seq<char>) -> Seq<char> {
    "Unknown install method "@ + method + " for "@ + name
}

/// The detail text of the failure for an unknown dependency name.
pub open spec fn unknown_dependency_detail(name: Seq<char>) -> Seq<char> {
    "Unknown dependency: "@ + name
}

/// The trace of a reinstall's uninstall step: a complete tracked run,
/// correctly classified, whose result the reinstall then discards.
pub open spec fn uninstall_step_events(
    events: Seq<Event>,
    id: u32,
    name: Seq<char>,
    ucmd: Seq<char>,
    p: ScriptedProcess,
) -> bool {
    exists|ru: Result<String, OpError>|
        #[trigger] tracked_run_events(events, id, uninstall_label(name), ucmd, p, ru)
            && classified(false, wait_outcome_of(p), uninstall_label(name), ru)
}

/// The acknowledgement reported after a sweep of cancellations, with
/// how many operations were signalled.
pub fn cancel_all_message(count: usize) -> (r: String)
    ensures
        r@ == "Cancelling "@ + crate::text::dec_digits(count as int) + " operation(s)"@,
{
    let mut s = String::from_str("Cancelling ");
    let digits = crate::text::usize_to_string(count);
    s.append(digits.as_str());
    s.append(" operation(s)");
    s
}

/// Installs a dependency by the given method, as one tracked operation
/// labeled `Installing <name>`.  An unknown `(name, method)` pair fails
/// immediately: no registry entry, no events.
pub fn install_dependency(
    reg: &mut Registry,
    name: &str,
    method: &str,
    process: &ScriptedProcess,
) -> (r: (Vec<Event>, Result<String, OpError>))
    requires
        old(reg).wf(),
        old(reg).spec_next_id() < u32::MAX,
    ensures
        final(reg).wf(),
        final(reg)@ == old(reg)@,
        spec_install_command(name@, method@) is None ==> ({
            &&& r.0@.len() == 0
            &&& *final(reg) == *old(reg)
            &&& (r.1 matches Err(OpError::UnknownTarget { detail }) && detail@
                == unknown_install_detail(name@, method@))
        }),
        spec_install_command(name@, method@) matches Some(cmd) ==> ({
            &&& final(reg).spec_next_id() == old(reg).spec_next_id() + 1
            &&& tracked_run_events(
                r.0@,
                old(reg).spec_next_id(),
                install_label(name@),
                cmd,
                *process,
                r.1,
            )
            &&& classified(false, wait_outcome_of(*process), install_label(name@), r.1)
        }),
{
    let looked_up = get_install_command(name, method);
    match looked_up {
        None => {
            let mut detail = String::from_str("Unknown install method ");
            detail.append(method);
            detail.append(" for ");
            detail.append(name);
            (Vec::new(), Err(OpError::UnknownTarget { detail }))
        },
        Some(cmd) => {
            let mut label = String::from_str("Installing ");
            label.append(name);
            run_tracked(reg, label.as_str(), cmd.as_str(), process)
        },
    }
}

/// Uninstalls a dependency, as one tracked operation labeled
/// `Uninstalling <name>`.  An unknown name fails immediately: no
/// registry entry, no events.
pub fn uninstall_dependency(
    reg: &mut Registry,
    name: &str,
    process: &ScriptedProcess,
) -> (r: (Vec<Event>, Result<String, OpError>))
    requires
        old(reg).wf(),
        old(reg).spec_next_id() < u32::MAX,
    ensures
        final(reg).wf(),
        final(reg)@ == old(reg)@,
        spec_uninstall_command(name@) is None ==> ({
            &&& r.0@.len() == 0
            &&& *final(reg) == *old(reg)
            &&& (r.1 matches Err(OpError::UnknownTarget { detail }) && detail@
                == unknown_dependency_detail(name@))
        }),
        spec_uninstall_command(name@) matches Some(cmd) ==> ({
            &&& final(reg).spec_next_id() == old(reg).spec_next_id() + 1
            &&& tracked_run_events(
                r.0@,
                old(reg).spec_next_id(),
                uninstall_label(name@),
                cmd,
                *process,
                r.1,
            )
            &&& classified(false, wait_outcome_of(*process), uninstall_label(name@), r.1)
        }),
{
    let looked_up = get_uninstall_command(name);
    match looked_up {
        None => {
            let mut detail = String::from_str("Unknown dependency: ");
            detail.append(name);
            (Vec::new(), Err(OpError::UnknownTarget { detail }))
        },
        Some(cmd) => {
            let mut label = String::from_str("Uninstalling ");
            label.append(name);
            run_tracked(reg, label.as_str(), cmd, process)
        },
    }
}

/// Reinstalls a dependency: best-effort uninstall, then install.  The
/// uninstall step's outcome is ignored; the install step's result is
/// the result of the whole operation, whatever the uninstall did.  Both
/// steps' events are produced, the uninstall step's first.
pub fn reinstall_dependency(
    reg: &mut Registry,
    name: &str,
    method: &str,
    uninstall_process: &ScriptedProcess,
    install_process: &ScriptedProcess,
) -> (r: (Vec<Event>, Result<String, OpError>))
    requires
        old(reg).wf(),
        old(reg).spec_next_id() + 1 < u32::MAX,
    ensures
        final(reg).wf(),
        final(reg)@ == old(reg)@,
        spec_uninstall_command(name@) is None ==> ({
            &&& r.0@.len() == 0
            &&& *final(reg) == *old(reg)
            &&& (r.1 matches Err(OpError::UnknownTarget { detail }) && detail@
                == unknown_dependency_detail(name@))
        }),
        spec_uninstall_command(name@) matches Some(ucmd) ==> ({
            &&& uninstall_step_events(
                r.0@.subrange(0, 2 + line_count(*uninstall_process)),
                old(reg).spec_next_id(),
                name@,
                ucmd,
                *uninstall_process,
            )
            &&& (spec_install_command(name@, method@) is None ==> ({
                &&& r.0@.len() == 2 + line_count(*uninstall_process)
                &&& final(reg).spec_next_id() == old(reg).spec_next_id() + 1
                &&& (r.1 matches Err(OpError::UnknownTarget { detail }) && detail@
                    == unknown_install_detail(name@, method@))
            }))
            &&& (spec_install_command(name@, method@) matches Some(icmd) ==> ({
                &&& r.0@.len() == 4 + line_count(*uninstall_process) + line_count(
                    *install_process,
                )
                &&& final(reg).spec_next_id() == old(reg).spec_next_id() + 2
                &&& tracked_run_events(
                    r.0@.subrange(2 + line_count(*uninstall_process), r.0@.len() as int),
                    (old(reg).spec_next_id() + 1) as u32,
                    reinstall_label(name@),
                    icmd,
                    *install_process,
                    r.1,
                )
                &&& classified(
                    false,
                    wait_outcome_of(*install_process),
                    reinstall_label(name@),
                    r.1,
                )
            }))
        }),
{
    let looked_up = get_uninstall_command(name);
    let ucmd = match looked_up {
        None => {
            let mut detail = String::from_str("Unknown dependency: ");
            detail.append(name);
            return (Vec::new(), Err(OpError::UnknownTarget { detail }));
        },
        Some(c) => c,
    };
    let mut ulabel = String::from_str("Uninstalling ");
    ulabel.append(name);
    let (mut events, uninstall_result) = run_tracked(reg, ulabel.as_str(), ucmd, uninstall_process);
    proof {
        assert(tracked_run_events(
            events@,
            old(reg).spec_next_id(),
            uninstall_label(name@),
            spec_uninstall_command(name@)->Some_0,
            *uninstall_process,
            uninstall_result,
        ));
        assert(events@.subrange(0, events@.len() as int) =~= events@);
    }
    let installed = get_install_command(name, method);
    match installed {
        None => {
            let mut detail = String::from_str("Unknown install method ");
            detail.append(method);
            detail.append(" for ");
            detail.append(name);
            (events, Err(OpError::UnknownTarget { detail }))
        },
        Some(icmd) => {
            let ghost ulen = events@.len() as int;
            let mut ilabel = String::from_str("Reinstalling ");
            ilabel.append(name);
            let (mut ievents, res) = run_tracked(reg, ilabel.as_str(), icmd.as_str(), install_process);
            let ghost ievents_snapshot = ievents@;
            let ghost pre_append = events@;
            events.append(&mut ievents);
            proof {
                assert(events@.subrange(0, ulen) =~= pre_append);
                assert(events@.subrange(ulen, events@.len() as int) =~= ievents_snapshot);
            }
            (events, res)
        },
    }
}

} // verus!
