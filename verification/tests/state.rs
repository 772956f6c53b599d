use synaptic::commands::{get_inspector_messages, install_registry_server, spawn_server};
use synaptic::config::{McpConfig, McpServer};
use synaptic::error::SynapticError;
use synaptic::inspector::{InspectorMessage, MessageDirection};
use synaptic::process_manager::{ActiveProcess, ProcessManager};
use synaptic::state::{paginate, AppState, InspectorSessions};
use tokio::sync::mpsc::channel;

fn message(id: &str) -> InspectorMessage {
    InspectorMessage::from_parts(
        id.to_string(),
        "2024-01-01T00:00:00+00:00".to_string(),
        MessageDirection::Response,
        "srv",
        serde_json::Value::Null,
        None,
    )
}

fn ids(messages: &[InspectorMessage]) -> Vec<&str> {
    messages.iter().map(|m| m.id.as_str()).collect()
}

#[test]
fn the_cache_is_filled_and_forgotten() {
    let mut state = AppState::new();
    assert!(state.get_config().is_none());
    let mut config = McpConfig::new();
    config.add_server("a".to_string(), McpServer::new("npx", vec![])).unwrap();
    config.set_extra(vec![("theme".to_string(), serde_json::Value::from("dark"))]);
    state.set_config(config);
    assert!(state.get_config().unwrap().contains_server("a"));
    assert_eq!(state.get_config().unwrap().extra().len(), 1);
    assert_eq!(state.get_config().unwrap().extra()[0].0, "theme");
    assert_eq!(state.get_config().unwrap().extra()[0].1, "dark");
    state.invalidate_cache();
    assert!(state.get_config().is_none());
    assert!(AppState::default().get_config().is_none());
}

#[test]
fn messages_are_kept_server_by_server() {
    let mut state = AppState::new();
    assert!(state.get_inspector_messages("one").is_empty());
    state.add_inspector_message("one", message("1"));
    state.add_inspector_message("two", message("2"));
    state.add_inspector_message("one", message("3"));
    assert_eq!(ids(&state.get_inspector_messages("one")), vec!["1", "3"]);
    assert_eq!(ids(&state.get_inspector_messages("two")), vec!["2"]);
    state.clear_inspector_messages("one");
    assert!(state.get_inspector_messages("one").is_empty());
    assert_eq!(ids(&state.get_inspector_messages("two")), vec!["2"]);
    state.clear_inspector_messages("ghost");
    assert_eq!(ids(&state.get_inspector_messages("two")), vec!["2"]);
}

#[test]
fn stored_messages_keep_their_payload() {
    let payload: serde_json::Value =
        serde_json::from_str(r#"{"result":{"tools":["a","b"]},"id":7}"#).unwrap();
    let kept = InspectorMessage::from_parts(
        "id".to_string(),
        "when".to_string(),
        MessageDirection::Response,
        "srv",
        payload.clone(),
        Some("m".to_string()),
    );
    let mut state = AppState::new();
    state.add_inspector_message("srv", kept);
    let back = state.get_inspector_messages("srv");
    assert_eq!(back.len(), 1);
    assert_eq!(back[0].payload, payload);
    assert_eq!(back[0].method.as_deref(), Some("m"));
    assert_eq!(back[0].timestamp, "when");
    assert_eq!(back[0].duplicate().payload, payload);
}

#[test]
fn pages_are_cut_by_offset_and_limit() {
    let all: Vec<InspectorMessage> = (0..150).map(|i| message(&i.to_string())).collect();
    assert_eq!(paginate(&all, None, None).len(), 100);
    assert_eq!(paginate(&all, None, None)[0].id, "0");
    assert_eq!(paginate(&all, None, Some(100)).len(), 50);
    assert_eq!(paginate(&all, None, Some(100))[0].id, "100");
    assert_eq!(ids(&paginate(&all, Some(3), Some(10))), vec!["10", "11", "12"]);
    assert_eq!(ids(&paginate(&all, Some(5), Some(148))), vec!["148", "149"]);
    assert!(paginate(&all, Some(5), Some(150)).is_empty());
    assert!(paginate(&all, Some(5), Some(usize::MAX)).is_empty());
    assert!(paginate(&all, Some(0), None).is_empty());
    assert_eq!(paginate(&all, Some(usize::MAX), Some(1)).len(), 149);

    let mut state = AppState::new();
    for m in all {
        state.add_inspector_message("srv", m);
    }
    assert_eq!(ids(&get_inspector_messages(&state, "srv", Some(2), Some(1))), vec!["1", "2"]);
    assert_eq!(get_inspector_messages(&state, "srv", None, None).len(), 100);
    assert!(get_inspector_messages(&state, "other", None, None).is_empty());
}

#[test]
fn sessions_start_active_and_stop_in_place() {
    let mut sessions = InspectorSessions::new();
    assert_eq!(sessions.status("srv"), None);
    sessions.stop("srv");
    assert_eq!(sessions.status("srv"), None);
    let session = sessions.start("srv");
    assert_eq!(session.server_name, "srv");
    assert!(session.is_active);
    assert_eq!(sessions.status("srv"), Some(true));
    sessions.stop("srv");
    assert_eq!(sessions.status("srv"), Some(false));
    sessions.start("other");
    sessions.start("srv");
    assert_eq!(sessions.status("srv"), Some(true));
    assert_eq!(sessions.status("other"), Some(true));

    let mut state = AppState::new();
    assert!(state.start_inspector("srv").is_active);
    state.stop_inspector("srv");
    state.stop_inspector("ghost");
}

#[test]
fn a_catalog_server_is_installed_under_its_id_or_a_custom_name() {
    let mut config = McpConfig::new();
    install_registry_server(&mut config, "sqlite", None).unwrap();
    assert_eq!(config.get_server("sqlite").unwrap().command, "uvx");
    install_registry_server(&mut config, "sqlite", Some("db".to_string())).unwrap();
    assert_eq!(
        config.get_server("db").unwrap().args,
        vec!["mcp-server-sqlite", "--db-path", "database.db"]
    );
    match install_registry_server(&mut config, "sqlite", None) {
        Err(SynapticError::ServerAlreadyExists(name)) => assert_eq!(name, "sqlite"),
        other => panic!("unexpected: {other:?}"),
    }
    match install_registry_server(&mut config, "nope", Some("x".to_string())) {
        Err(SynapticError::RegistryError(detail)) => assert_eq!(detail, "Server not found: nope"),
        other => panic!("unexpected: {other:?}"),
    }
    assert_eq!(config.len(), 2);
}

#[test]
fn a_configured_server_is_spawned_with_its_settings() {
    let mut config = McpConfig::new();
    let mut settings = McpServer::new("npx", vec!["-y".to_string(), "pkg".to_string()]);
    settings.env.push(("TOKEN".to_string(), "s3cr3t".to_string()));
    settings.cwd = Some("/work".to_string());
    config.add_server("good".to_string(), settings).unwrap();
    config.add_server("bad".to_string(), McpServer::new("bash", vec![])).unwrap();

    let mut manager = ProcessManager::new();
    let plan = spawn_server(&config, &mut manager, "good".to_string()).unwrap();
    assert_eq!(plan.server_name, "good");
    assert_eq!(plan.command, "npx");
    assert_eq!(plan.args, vec!["-y", "pkg"]);
    assert_eq!(plan.env, vec![("TOKEN".to_string(), "s3cr3t".to_string())]);
    assert_eq!(plan.cwd.as_deref(), Some("/work"));
    assert_eq!(plan.secrets.redact("s3cr3t"), "[REDACTED]");

    match spawn_server(&config, &mut manager, "ghost".to_string()) {
        Err(SynapticError::ServerNotFound(name)) => assert_eq!(name, "ghost"),
        other => panic!("unexpected: {:?}", other.map(|p| p.command)),
    }
    match spawn_server(&config, &mut manager, "bad".to_string()) {
        Err(SynapticError::ProcessError(text)) => {
            assert!(text.starts_with("Command not allowed: bash. Allowed: [\"npx\""))
        }
        other => panic!("unexpected: {:?}", other.map(|p| p.command)),
    }
    let (stdin_tx, _stdin_rx) = channel::<String>(100);
    let (kill_tx, _kill_rx) = channel::<()>(1);
    manager.insert_process(ActiveProcess {
        server_name: "good".to_string(),
        stdin_tx,
        kill_tx,
        pid: 9,
        handle: plan.handle,
    });
    match spawn_server(&config, &mut manager, "good".to_string()) {
        Err(SynapticError::ProcessError(text)) => assert_eq!(text, "Server already running: good"),
        other => panic!("unexpected: {:?}", other.map(|p| p.command)),
    }
}
