use synaptic::process_manager::{ActiveProcess, ProcessManager};
use synaptic::watchdog::{Watchdog, WatchdogAction, WatchdogEvent, WatchdogState};
use tokio::sync::mpsc::channel;

fn record(name: &str, pid: u32, handle: u64) -> ActiveProcess {
    let (stdin_tx, _stdin_rx) = channel::<String>(100);
    let (kill_tx, _kill_rx) = channel::<()>(1);
    ActiveProcess { server_name: name.to_string(), stdin_tx, kill_tx, pid, handle }
}

fn manager_with(name: &str, pid: u32, handle: u64) -> ProcessManager {
    let mut manager = ProcessManager::new();
    manager.insert_process(record(name, pid, handle));
    manager
}

#[test]
fn a_natural_exit_is_cleared_up_once() {
    let mut manager = manager_with("srv", 5, 1);
    let mut watchdog = Watchdog::new("srv", 5, 1);
    assert_eq!(watchdog.state, WatchdogState::Running);
    assert!(watchdog.finish(&mut manager).is_none());
    assert!(manager.is_running("srv"));

    assert_eq!(watchdog.on_event(WatchdogEvent::ChildExited(Some(3))), WatchdogAction::Teardown);
    assert_eq!(watchdog.state, WatchdogState::Exited);
    let teardown = watchdog.finish(&mut manager).unwrap();
    assert!(teardown.cancel_pumps);
    assert_eq!(teardown.removed.unwrap().pid, 5);
    assert_eq!(teardown.notice.server_name, "srv");
    assert_eq!(teardown.notice.exit_status, Some(3));
    assert_eq!(watchdog.state, WatchdogState::Removed);
    assert!(!manager.is_running("srv"));

    assert!(watchdog.finish(&mut manager).is_none());
    assert_eq!(watchdog.on_event(WatchdogEvent::StopRequested), WatchdogAction::Nothing);
    assert_eq!(watchdog.state, WatchdogState::Removed);
}

#[test]
fn a_kill_is_followed_by_the_teardown() {
    let mut manager = manager_with("srv", 5, 1);
    let mut watchdog = Watchdog::new("srv", 5, 1);
    let _record = manager.kill_process("srv").unwrap();
    assert_eq!(watchdog.on_event(WatchdogEvent::StopRequested), WatchdogAction::KillChild);
    assert_eq!(watchdog.state, WatchdogState::Terminating);
    assert_eq!(watchdog.on_event(WatchdogEvent::StopRequested), WatchdogAction::Nothing);
    assert_eq!(watchdog.on_event(WatchdogEvent::ChildExited(None)), WatchdogAction::Teardown);
    assert_eq!(watchdog.state, WatchdogState::Terminating);
    let teardown = watchdog.finish(&mut manager).unwrap();
    assert!(teardown.removed.is_none());
    assert_eq!(teardown.notice.exit_status, None);
    assert_eq!(watchdog.state, WatchdogState::Removed);
    assert!(watchdog.finish(&mut manager).is_none());
}

#[test]
fn the_teardown_spares_a_process_spawned_anew_under_the_name() {
    for new_pid in [6, 5] {
        let mut manager = manager_with("srv", 5, 1);
        let mut old = Watchdog::new("srv", 5, 1);
        manager.kill_process("srv").unwrap();
        manager.insert_process(record("srv", new_pid, 2));
        old.on_event(WatchdogEvent::StopRequested);
        let teardown = old.finish(&mut manager).unwrap();
        assert!(teardown.removed.is_none());
        assert!(manager.is_running("srv"));
        let kept = manager.kill_process("srv").unwrap();
        assert_eq!(kept.pid, new_pid);
        assert_eq!(kept.handle, 2);
    }
}

#[test]
fn a_natural_exit_spares_a_process_that_took_the_name_meanwhile() {
    let mut manager = manager_with("srv", 7, 1);
    let mut old = Watchdog::new("srv", 7, 1);
    old.on_event(WatchdogEvent::ChildExited(Some(0)));
    manager.kill_process("srv").unwrap();
    manager.insert_process(record("srv", 7, 2));
    let teardown = old.finish(&mut manager).unwrap();
    assert!(teardown.removed.is_none());
    assert_eq!(teardown.notice.exit_status, Some(0));
    assert_eq!(manager.list_running(), vec!["srv".to_string()]);
}
