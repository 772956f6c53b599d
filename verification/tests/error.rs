use synaptic::error::{ErrorResponse, SupervisorError, SynapticError};

#[test]
fn every_error_has_its_code_and_its_text() {
    let cases: Vec<(SynapticError, &str, &str)> = vec![
        (SynapticError::ConfigNotFound("x".into()), "CONFIG_NOT_FOUND", "Configuration file not found: x"),
        (SynapticError::ConfigReadError("x".into()), "CONFIG_READ_ERROR", "Failed to read configuration: x"),
        (SynapticError::ConfigWriteError("x".into()), "CONFIG_WRITE_ERROR", "Failed to write configuration: x"),
        (SynapticError::ConfigParseError("x".into()), "CONFIG_PARSE_ERROR", "Failed to parse configuration: x"),
        (SynapticError::ServerNotFound("x".into()), "SERVER_NOT_FOUND", "Server not found: x"),
        (SynapticError::ServerAlreadyExists("x".into()), "SERVER_ALREADY_EXISTS", "Server already exists: x"),
        (SynapticError::BackupError("x".into()), "BACKUP_ERROR", "Backup operation failed: x"),
        (SynapticError::InspectorError("x".into()), "INSPECTOR_ERROR", "Inspector error: x"),
        (SynapticError::RegistryError("x".into()), "REGISTRY_ERROR", "Registry error: x"),
        (SynapticError::RuntimeNotFound("x".into()), "RUNTIME_NOT_FOUND", "Runtime not found: x"),
        (SynapticError::IoError("x".into()), "IO_ERROR", "IO error: x"),
        (SynapticError::ProcessError("x".into()), "PROCESS_ERROR", "Process error: x"),
    ];
    for (error, code, text) in cases {
        assert_eq!(error.code(), code);
        assert_eq!(error.message(), text);
        let copy = error.clone_as_error();
        assert_eq!(copy.message(), text);
        let response = ErrorResponse::from(error);
        assert_eq!(response.code, code);
        assert_eq!(response.message, text);
    }
}

#[test]
fn supervisor_errors_are_worded_for_the_frontend() {
    let refused = SupervisorError::CommandNotAllowed { command: "bash".into() };
    assert_eq!(
        refused.message(),
        "Command not allowed: bash. Allowed: [\"npx\", \"node\", \"npm\", \"uvx\", \"uv\", \"python\", \"python3\", \"pip\", \"pip3\", \"docker\", \"deno\", \"bun\"]"
    );
    assert_eq!(
        SupervisorError::AlreadyRunning { name: "srv".into() }.message(),
        "Server already running: srv"
    );
    assert_eq!(SupervisorError::NotFound { name: "srv".into() }.message(), "Process not found: srv");
    assert_eq!(
        SupervisorError::SpawnFailed { reason: "No such file".into() }.message(),
        "Failed to spawn: No such file"
    );
    assert_eq!(SupervisorError::send_failed("channel closed").message(), "Failed to send: channel closed");
    assert_eq!(SupervisorError::pid_missing().message(), "Failed to get PID");
}

#[test]
fn a_supervisor_error_becomes_a_process_error() {
    let error = SupervisorError::NotFound { name: "srv".into() }.into_synaptic();
    assert!(matches!(error, SynapticError::ProcessError(_)));
    assert_eq!(error.code(), "PROCESS_ERROR");
    assert_eq!(error.message(), "Process error: Process not found: srv");
}

#[test]
fn outside_errors_are_taken_in() {
    let parse = serde_json::from_str::<serde_json::Value>("{").unwrap_err();
    let text = parse.to_string();
    match SynapticError::from(parse) {
        SynapticError::ConfigParseError(detail) => assert_eq!(detail, text),
        other => panic!("unexpected: {other:?}"),
    }
    let io = std::io::Error::new(std::io::ErrorKind::NotFound, "gone");
    match SynapticError::from(io) {
        SynapticError::IoError(detail) => assert_eq!(detail, "gone"),
        other => panic!("unexpected: {other:?}"),
    }
}

#[test]
fn joined_concatenates() {
    assert_eq!(synaptic::error::joined("ab", "cd"), "abcd");
    assert_eq!(synaptic::error::joined("", ""), "");
}
