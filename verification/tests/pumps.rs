use synaptic::inspector::MessageDirection;
use synaptic::process_manager::{spawn_mcp_server, ActiveProcess, ProcessManager};
use synaptic::pumps::{PumpAction, PumpEvent, Stream, StreamPump};
use synaptic::redactor::SecretSet;
use synaptic::watchdog::{Watchdog, WatchdogAction, WatchdogEvent};

fn secrets() -> SecretSet {
    let mut set = SecretSet::new();
    set.register(vec!["s3cr3t".to_string()]);
    set
}

#[test]
fn stdin_pump_emits_then_writes_then_flushes() {
    let mut pump = StreamPump::new(Stream::Stdin, "srv", secrets());
    let actions = pump.step(PumpEvent::Item("login s3cr3t".to_string()));
    assert_eq!(actions.len(), 3);
    match &actions[0] {
        PumpAction::Emit(event) => {
            assert_eq!(event.server_id, "srv");
            assert_eq!(event.direction, "OUTGOING");
            assert_eq!(event.content, "login [REDACTED]");
            assert_eq!(event.message_id.len(), 36);
            assert!(event.timestamp.chars().count() >= 25);
        }
        other => panic!("unexpected: {other:?}"),
    }
    match &actions[1] {
        PumpAction::Write(frame) => assert_eq!(frame, "login s3cr3t\n"),
        other => panic!("unexpected: {other:?}"),
    }
    assert!(matches!(actions[2], PumpAction::Flush));
    assert!(pump.running);
}

#[test]
fn stdout_pump_captures_json_lines() {
    let mut pump = StreamPump::new(Stream::Stdout, "srv", secrets());
    let actions = pump.step(PumpEvent::Item("{\"result\":\"s3cr3t\",\"id\":1}".to_string()));
    assert_eq!(actions.len(), 2);
    match &actions[0] {
        PumpAction::Emit(event) => {
            assert_eq!(event.direction, "INCOMING");
            assert_eq!(event.content, "{\"result\":\"[REDACTED]\",\"id\":1}");
        }
        other => panic!("unexpected: {other:?}"),
    }
    match &actions[1] {
        PumpAction::Capture(message) => {
            assert_eq!(message.direction, MessageDirection::Response);
            assert_eq!(message.server_name, "srv");
            assert_eq!(message.payload["result"], "s3cr3t");
            assert_eq!(message.method, None);
            assert_eq!(message.duration_ms, None);
        }
        other => panic!("unexpected: {other:?}"),
    }
}

#[test]
fn stdout_pump_shows_lines_that_are_not_json() {
    let mut pump = StreamPump::new(Stream::Stdout, "srv", secrets());
    let actions = pump.step(PumpEvent::Item("echo:hello".to_string()));
    assert_eq!(actions.len(), 1);
    match &actions[0] {
        PumpAction::Emit(event) => {
            assert_eq!(event.direction, "INCOMING");
            assert_eq!(event.content, "echo:hello");
        }
        other => panic!("unexpected: {other:?}"),
    }
    assert!(pump.running);
}

#[test]
fn stderr_pump_does_not_redact() {
    let mut pump = StreamPump::new(Stream::Stderr, "srv", secrets());
    let actions = pump.step(PumpEvent::Item("leak s3cr3t".to_string()));
    assert_eq!(actions.len(), 1);
    match &actions[0] {
        PumpAction::Emit(event) => {
            assert_eq!(event.direction, "STDERR");
            assert_eq!(event.content, "leak s3cr3t");
        }
        other => panic!("unexpected: {other:?}"),
    }
}

#[test]
fn a_pump_stops_on_failure_and_on_the_end_of_its_stream() {
    for stream in [Stream::Stdin, Stream::Stdout, Stream::Stderr] {
        let mut failed = StreamPump::new(stream, "srv", secrets());
        assert!(failed.step(PumpEvent::Failed).is_empty());
        assert!(!failed.running);
        assert!(failed.step(PumpEvent::Item("late".to_string())).is_empty());
        assert!(!failed.running);

        let mut closed = StreamPump::new(stream, "srv", secrets());
        assert!(closed.step(PumpEvent::Closed).is_empty());
        assert!(!closed.running);
        assert!(closed.step(PumpEvent::Closed).is_empty());
    }
}

#[test]
fn events_keep_the_order_of_the_items() {
    let mut pump = StreamPump::new(Stream::Stdout, "srv", SecretSet::new());
    let mut seen = Vec::new();
    for line in ["one", "two", "three"] {
        for action in pump.step(PumpEvent::Item(line.to_string())) {
            if let PumpAction::Emit(event) = action {
                seen.push(event.content);
            }
        }
    }
    assert_eq!(seen, vec!["one", "two", "three"]);
}

#[test]
fn an_echoing_process_is_observed_from_spawn_to_stop() {
    let mut manager = ProcessManager::new();
    let plan = spawn_mcp_server(
        &mut manager,
        "echo".to_string(),
        "node".to_string(),
        vec!["echo.js".to_string()],
        vec![("TOKEN".to_string(), "s3cr3t".to_string())],
        None,
    )
    .unwrap();
    let (stdin_tx, mut stdin_rx) = tokio::sync::mpsc::channel::<String>(100);
    let (kill_tx, mut kill_rx) = tokio::sync::mpsc::channel::<()>(1);
    manager.insert_process(ActiveProcess {
        server_name: "echo".to_string(),
        stdin_tx,
        kill_tx,
        pid: 77,
        handle: plan.handle,
    });
    let mut stdin_pump = StreamPump::new(Stream::Stdin, "echo", plan.secrets.snapshot());
    let mut stdout_pump = StreamPump::new(Stream::Stdout, "echo", plan.secrets.snapshot());
    let mut watchdog = Watchdog::new("echo", 77, plan.handle);
    let mut observed: Vec<(String, String)> = Vec::new();
    let mut stops = 0;

    manager.send_to_stdin("echo").unwrap().try_send("hello".to_string()).unwrap();
    let payload = stdin_rx.try_recv().unwrap();
    let mut written = String::new();
    for action in stdin_pump.step(PumpEvent::Item(payload)) {
        match action {
            PumpAction::Emit(event) => observed.push((event.direction, event.content)),
            PumpAction::Write(frame) => written.push_str(&frame),
            _ => {}
        }
    }
    assert_eq!(written, "hello\n");
    let echoed = format!("echo:{}", written.trim_end());
    for action in stdout_pump.step(PumpEvent::Item(echoed)) {
        if let PumpAction::Emit(event) = action {
            observed.push((event.direction, event.content));
        }
    }
    assert_eq!(
        observed,
        vec![
            ("OUTGOING".to_string(), "hello".to_string()),
            ("INCOMING".to_string(), "echo:hello".to_string())
        ]
    );

    let record = manager.kill_process("echo").unwrap();
    record.kill_tx.try_send(()).unwrap();
    assert!(manager.list_running().is_empty());
    assert_eq!(kill_rx.try_recv(), Ok(()));
    assert_eq!(watchdog.on_event(WatchdogEvent::StopRequested), WatchdogAction::KillChild);
    assert_eq!(watchdog.on_event(WatchdogEvent::ChildExited(None)), WatchdogAction::Teardown);
    for _ in 0..3 {
        if let Some(teardown) = watchdog.finish(&mut manager) {
            assert_eq!(teardown.notice.server_name, "echo");
            stops += 1;
        }
    }
    assert_eq!(stops, 1);
    assert!(manager.list_running().is_empty());
}
