//! The watchdog of one process: it waits for a stop request or for the
//! process's own exit, and then clears up exactly once.

use vstd::prelude::*;
use crate::process_manager::{after_exit, ActiveProcess, ProcessManager};

verus! {

/// Where a process stands in its life.
#[derive(Debug, Clone, Copy, PartialEq, Eq, Structural)]
pub enum WatchdogState {
    /// Registered and running.
    Running,
    /// A stop was requested; the process is being killed.
    Terminating,
    /// The process ended on its own.
    Exited,
    /// Cleared up; the name is free.
    Removed,
}

/// What wakes a watchdog.
#[derive(Debug, Clone, Copy, PartialEq, Eq, Structural)]
pub enum WatchdogEvent {
    /// The stop channel was signalled.
    StopRequested,
    /// The process is gone, with this exit status if one is known.
    ChildExited(Option<i32>),
}

/// What a watchdog asks to be done.
#[derive(Debug, Clone, Copy, PartialEq, Eq, Structural)]
pub enum WatchdogAction {
    /// Kill the process by force.
    KillChild,
    /// Clear up: see [`Watchdog::finish`].
    Teardown,
    /// Nothing.
    Nothing,
}

/// The notice that a process has stopped.
#[derive(Debug)]
pub struct ProcessStopped {
    /// Name of the server that stopped.
    pub server_name: String,
    /// Exit status, when one is known.
    pub exit_status: Option<i32>,
}

/// What clearing up leaves to be done outside: cancel the three pumps, drop
/// the record that was still registered, and emit the notice.
#[derive(Debug)]
pub struct Teardown {
    /// The pumps of the process are to be cancelled.
    pub cancel_pumps: bool,
    /// The record that was removed from the registry, if it still stood there.
    pub removed: Option<ActiveProcess>,
    /// The notice to emit.
    pub notice: ProcessStopped,
}

/// The watchdog of the process that runs under `server_name` with the
/// handle `handle` and the process id `pid`.
#[derive(Debug)]
pub struct Watchdog {
    pub server_name: String,
    pub pid: u32,
    pub handle: u64,
    pub state: WatchdogState,
    pub exit_status: Option<i32>,
}

/// The state that follows `state` on `event`.
pub open spec fn next_state(state: WatchdogState, event: WatchdogEvent) -> WatchdogState {
    match (state, event) {
        (WatchdogState::Running, WatchdogEvent::StopRequested) => WatchdogState::Terminating,
        (WatchdogState::Running, WatchdogEvent::ChildExited(_)) => WatchdogState::Exited,
        _ => state,
    }
}

/// What `event` asks for in `state`.
pub open spec fn action_for(state: WatchdogState, event: WatchdogEvent) -> WatchdogAction {
    match (state, event) {
        (WatchdogState::Running, WatchdogEvent::StopRequested) => WatchdogAction::KillChild,
        (WatchdogState::Running, WatchdogEvent::ChildExited(_)) => WatchdogAction::Teardown,
        (WatchdogState::Terminating, WatchdogEvent::ChildExited(_)) => WatchdogAction::Teardown,
        _ => WatchdogAction::Nothing,
    }
}

/// The exit status known after `event` in `state`.
pub open spec fn status_after(
    state: WatchdogState,
    known: Option<i32>,
    event: WatchdogEvent,
) -> Option<i32> {
    match (state, event) {
        (WatchdogState::Running, WatchdogEvent::ChildExited(status)) => status,
        (WatchdogState::Terminating, WatchdogEvent::ChildExited(status)) => status,
        _ => known,
    }
}

/// Clearing up is due in `state`.
pub open spec fn teardown_due(state: WatchdogState) -> bool {
    state == WatchdogState::Terminating || state == WatchdogState::Exited
}

impl Watchdog {
    /// The watchdog of a process that was just registered.
    pub fn new(server_name: &str, pid: u32, handle: u64) -> (watchdog: Self)
        ensures
            watchdog.server_name@ == server_name@,
            watchdog.pid == pid,
            watchdog.handle == handle,
            watchdog.state == WatchdogState::Running,
            watchdog.exit_status is None,
    {
        Watchdog {
            server_name: server_name.to_owned(),
            pid,
            handle,
            state: WatchdogState::Running,
            exit_status: None,
        }
    }

    /// Takes an event. A running watchdog turns to terminating on a stop
    /// request, and asks for the kill; it turns to exited when the process
    /// ends on its own, and asks for the teardown. A terminating watchdog
    /// asks for the teardown once the process is gone. Anything else is
    /// ignored.
    pub fn on_event(&mut self, event: WatchdogEvent) -> (action: WatchdogAction)
        ensures
            final(self).server_name == old(self).server_name,
            final(self).pid == old(self).pid,
            final(self).handle == old(self).handle,
            final(self).state == next_state(old(self).state, event),
            final(self).exit_status == status_after(old(self).state, old(self).exit_status, event),
            action == action_for(old(self).state, event),
    {
        match self.state {
            WatchdogState::Running => match event {
                WatchdogEvent::StopRequested => {
                    self.state = WatchdogState::Terminating;
                    WatchdogAction::KillChild
                },
                WatchdogEvent::ChildExited(status) => {
                    self.state = WatchdogState::Exited;
                    self.exit_status = status;
                    WatchdogAction::Teardown
                },
            },
            WatchdogState::Terminating => match event {
                WatchdogEvent::StopRequested => WatchdogAction::Nothing,
                WatchdogEvent::ChildExited(status) => {
                    self.exit_status = status;
                    WatchdogAction::Teardown
                },
            },
            WatchdogState::Exited => WatchdogAction::Nothing,
            WatchdogState::Removed => WatchdogAction::Nothing,
        }
    }

    /// Clears up after the process, once. Where clearing up is due, the
    /// watchdog's own record leaves the registry if it still stands there,
    /// the watchdog ends as removed, and the teardown with the stop notice is
    /// handed out. A record that another process holds under the name by now
    /// is left alone. Where clearing up is not due (the process still runs,
    /// or was cleared up before) nothing changes and nothing is handed out.
    pub fn finish(&mut self, manager: &mut ProcessManager) -> (teardown: Option<Teardown>)
        ensures
            final(self).server_name == old(self).server_name,
            final(self).pid == old(self).pid,
            final(self).handle == old(self).handle,
            final(self).exit_status == old(self).exit_status,
            final(manager).secrets() == old(manager).secrets(),
            final(manager).issued() == old(manager).issued(),
            if teardown_due(old(self).state) {
                &&& final(self).state == WatchdogState::Removed
                &&& final(manager).processes() == after_exit(
                    old(manager).processes(),
                    old(self).server_name@,
                    old(self).handle,
                )
                &&& teardown matches Some(t)
                &&& t.cancel_pumps
                &&& t.notice.server_name@ == old(self).server_name@
                &&& t.notice.exit_status == old(self).exit_status
                &&& t.removed == if old(manager).running(old(self).server_name@) && old(
                    manager,
                ).processes()[old(self).server_name@].handle == old(self).handle {
                    Some(old(manager).processes()[old(self).server_name@])
                } else {
                    None::<ActiveProcess>
                }
            } else {
                &&& final(self).state == old(self).state
                &&& teardown is None
                &&& final(manager).processes() == old(manager).processes()
            },
    {
        match self.state {
            WatchdogState::Terminating | WatchdogState::Exited => {
                let removed = manager.remove_exited(self.server_name.as_str(), self.handle);
                self.state = WatchdogState::Removed;
                Some(
                    Teardown {
                        cancel_pumps: true,
                        removed,
                        notice: ProcessStopped {
                            server_name: self.server_name.clone(),
                            exit_status: self.exit_status,
                        },
                    },
                )
            },
            _ => None,
        }
    }
}

} // verus!
