//! What holds of the supervisor across several requests.

use vstd::prelude::*;
use crate::error::SupervisorFault;
use crate::gate::command_allowed;
use crate::process_manager::{after_exit, after_insert, handle_registered, handles_differ,
    name_of_handle, spawn_refusal, without_handle, ActiveProcess};
use crate::watchdog::{action_for, next_state, teardown_due, WatchdogAction, WatchdogEvent,
    WatchdogState};

verus! {

/// A command that is not allowed is refused as such, whatever the registry
/// holds.
pub proof fn lemma_command_is_judged_first(
    processes: Map<Seq<char>, ActiveProcess>,
    server_name: Seq<char>,
    command: Seq<char>,
    issued: u64,
)
    requires
        !command_allowed(command),
    ensures
        spawn_refusal(processes, server_name, command, issued) == Some(
            SupervisorFault::CommandNotAllowed(command),
        ),
{
}

/// While a process is registered under a name, a further spawn under that
/// name is refused as already running, and the first process stays the one
/// that the registry holds.
pub proof fn lemma_second_spawn_refused(
    processes: Map<Seq<char>, ActiveProcess>,
    first: ActiveProcess,
    command: Seq<char>,
    issued: u64,
)
    requires
        command_allowed(command),
    ensures
        spawn_refusal(
            after_insert(processes, first),
            first.server_name@,
            command,
            issued,
        ) == Some(SupervisorFault::AlreadyRunning(first.server_name@)),
        after_insert(processes, first)[first.server_name@] == first,
{
}

/// Once a name was killed it is no longer registered, every other process is
/// as it was, and a spawn under the name is admitted again as long as a
/// handle is left.
pub proof fn lemma_kill_frees_the_name(
    processes: Map<Seq<char>, ActiveProcess>,
    server_name: Seq<char>,
    command: Seq<char>,
    issued: u64,
)
    requires
        command_allowed(command),
        issued < u64::MAX,
    ensures
        !processes.remove(server_name).dom().contains(server_name),
        forall|other: Seq<char>|
            other != server_name ==> (processes.remove(server_name).dom().contains(other)
                <==> processes.dom().contains(other)),
        spawn_refusal(processes.remove(server_name), server_name, command, issued) is None,
{
}

/// A spawn is admitted exactly when the command is allowed, the name is free
/// and a handle is left.
pub proof fn lemma_spawn_admitted(
    processes: Map<Seq<char>, ActiveProcess>,
    server_name: Seq<char>,
    command: Seq<char>,
    issued: u64,
)
    ensures
        spawn_refusal(processes, server_name, command, issued) is None <==> command_allowed(command)
            && !processes.dom().contains(server_name) && issued < u64::MAX,
{
}

/// Registering a process whose handle no entry bears changes the entry under
/// its name and nothing else.
pub proof fn lemma_insert_under_a_fresh_handle(
    processes: Map<Seq<char>, ActiveProcess>,
    process: ActiveProcess,
)
    requires
        !handle_registered(processes, process.handle),
    ensures
        after_insert(processes, process) == processes.insert(process.server_name@, process),
{
}

/// Registering a process keeps the handles of the registry apart.
pub proof fn lemma_insert_keeps_handles_apart(
    processes: Map<Seq<char>, ActiveProcess>,
    process: ActiveProcess,
)
    requires
        handles_differ(processes),
    ensures
        handles_differ(after_insert(processes, process)),
{
    let after = after_insert(processes, process);
    let base = without_handle(processes, process.handle);
    assert forall|a: Seq<char>, b: Seq<char>|
        after.dom().contains(a) && after.dom().contains(b) && a != b implies after[a].handle
        != after[b].handle by {
        if handle_registered(processes, process.handle) {
            let holder = name_of_handle(processes, process.handle);
            if a != process.server_name@ {
                assert(processes.dom().contains(a) && a != holder);
            }
            if b != process.server_name@ {
                assert(processes.dom().contains(b) && b != holder);
            }
        } else {
            if a != process.server_name@ {
                assert(processes.dom().contains(a));
            }
            if b != process.server_name@ {
                assert(processes.dom().contains(b));
            }
        }
    }
}

/// The late teardown of a killed process is a no-op: once its name was
/// killed, whatever was registered under the name since, under another
/// handle, stays registered. This holds whatever the process ids are.
pub proof fn lemma_late_teardown_spares_the_newer(
    processes: Map<Seq<char>, ActiveProcess>,
    server_name: Seq<char>,
    old_handle: u64,
    newer: ActiveProcess,
)
    requires
        newer.server_name@ == server_name,
        newer.handle != old_handle,
    ensures
        after_exit(processes.remove(server_name), server_name, old_handle) == processes.remove(
            server_name,
        ),
        after_exit(
            after_insert(processes.remove(server_name), newer),
            server_name,
            old_handle,
        ) == after_insert(processes.remove(server_name), newer),
        after_insert(processes.remove(server_name), newer)[server_name] == newer,
{
}

/// The teardown of a process removes its own entry and no other.
pub proof fn lemma_teardown_removes_its_own(
    processes: Map<Seq<char>, ActiveProcess>,
    server_name: Seq<char>,
    handle: u64,
)
    ensures
        forall|other: Seq<char>|
            other != server_name ==> (after_exit(processes, server_name, handle).dom().contains(
                other,
            ) <==> processes.dom().contains(other)),
        forall|other: Seq<char>|
            #![trigger after_exit(processes, server_name, handle)[other]]
            after_exit(processes, server_name, handle).dom().contains(other) ==> after_exit(
                processes,
                server_name,
                handle,
            )[other] == processes[other],
        after_exit(processes, server_name, handle).dom().contains(server_name) <==> (
        processes.dom().contains(server_name) && processes[server_name].handle != handle),
{
}

/// Whatever wakes a running watchdog, the teardown is due afterwards; once a
/// watchdog is removed no event moves it and no teardown is due again.
pub proof fn lemma_teardown_once(event: WatchdogEvent, later: WatchdogEvent)
    ensures
        teardown_due(next_state(WatchdogState::Running, event)),
        !teardown_due(WatchdogState::Running),
        !teardown_due(WatchdogState::Removed),
        next_state(WatchdogState::Removed, later) == WatchdogState::Removed,
        action_for(WatchdogState::Removed, later) == WatchdogAction::Nothing,
{
}

/// A watchdog never goes back: no event leads to running from another state,
/// and only a stop request leads to the kill.
pub proof fn lemma_watchdog_moves_forward(state: WatchdogState, event: WatchdogEvent)
    ensures
        next_state(state, event) == WatchdogState::Running ==> state == WatchdogState::Running,
        action_for(state, event) == WatchdogAction::KillChild ==> state == WatchdogState::Running
            && event == WatchdogEvent::StopRequested,
        state != WatchdogState::Running ==> next_state(state, event) == state,
{
}

} // verus!
