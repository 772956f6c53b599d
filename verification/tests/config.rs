use synaptic::config::{default_true, McpConfig, McpServer};
use synaptic::error::SynapticError;

fn server(command: &str) -> McpServer {
    McpServer::new(command, vec!["-y".to_string(), "test-package".to_string()])
}

fn sorted(mut names: Vec<String>) -> Vec<String> {
    names.sort();
    names
}

#[test]
fn a_new_configuration_is_empty() {
    let config = McpConfig::default();
    assert_eq!(config.len(), 0);
    assert!(config.server_names().is_empty());
    assert!(config.extra().is_empty());
    assert!(!config.contains_server("test"));
    assert!(config.get_server("test").is_none());
    assert!(default_true());
}

#[test]
fn servers_are_added_once() {
    let mut config = McpConfig::new();
    config.add_server("test".to_string(), server("npx")).unwrap();
    assert_eq!(config.len(), 1);
    assert!(config.contains_server("test"));
    let held = config.get_server("test").unwrap();
    assert_eq!(held.command, "npx");
    assert_eq!(held.args, vec!["-y", "test-package"]);
    assert!(held.enabled);
    match config.add_server("test".to_string(), server("uvx")) {
        Err(SynapticError::ServerAlreadyExists(name)) => assert_eq!(name, "test"),
        other => panic!("unexpected: {other:?}"),
    }
    assert_eq!(config.get_server("test").unwrap().command, "npx");
}

#[test]
fn servers_are_removed_updated_and_toggled_by_name() {
    let mut config = McpConfig::new();
    config.add_server("a".to_string(), server("npx")).unwrap();
    config.add_server("b".to_string(), server("node")).unwrap();
    config.add_server("c".to_string(), server("deno")).unwrap();

    config.update_server("b", server("bun")).unwrap();
    assert_eq!(config.get_server("b").unwrap().command, "bun");
    assert_eq!(sorted(config.server_names()), vec!["a", "b", "c"]);

    config.toggle_server("a", false).unwrap();
    assert!(!config.get_server("a").unwrap().enabled);
    assert_eq!(config.get_server("a").unwrap().command, "npx");
    config.toggle_server("a", true).unwrap();
    assert!(config.get_server("a").unwrap().enabled);

    config.remove_server("b").unwrap();
    assert_eq!(sorted(config.server_names()), vec!["a", "c"]);
    assert_eq!(config.get_server("c").unwrap().command, "deno");

    for outcome in [
        config.remove_server("b"),
        config.update_server("b", server("x")),
        config.toggle_server("b", true),
    ] {
        match outcome {
            Err(SynapticError::ServerNotFound(name)) => assert_eq!(name, "b"),
            other => panic!("unexpected: {other:?}"),
        }
    }
    assert_eq!(config.len(), 2);
}

#[test]
fn a_copy_holds_the_same_servers_and_fields() {
    let mut config = McpConfig::new();
    let mut settings = server("npx");
    settings.env.push(("KEY".to_string(), "value".to_string()));
    settings.cwd = Some("/tmp".to_string());
    config.add_server("a".to_string(), settings).unwrap();
    config.set_extra(vec![("theme".to_string(), serde_json::Value::from("dark"))]);
    let copy = config.duplicate();
    let held = copy.get_server("a").unwrap();
    assert_eq!(held.env, vec![("KEY".to_string(), "value".to_string())]);
    assert_eq!(held.cwd.as_deref(), Some("/tmp"));
    assert_eq!(copy.extra(), config.extra());
    assert_eq!(copy.extra()[0].1, "dark");
}

#[test]
fn a_copy_of_settings_holds_every_field() {
    let mut settings = server("uvx");
    settings.env.push(("A".to_string(), "1".to_string()));
    settings.env.push(("B".to_string(), "2".to_string()));
    settings.cwd = Some("/srv".to_string());
    settings.enabled = false;
    let copy = settings.duplicate();
    assert_eq!(copy.command, "uvx");
    assert_eq!(copy.args, settings.args);
    assert_eq!(copy.env, settings.env);
    assert_eq!(copy.cwd, settings.cwd);
    assert!(!copy.enabled);
}
