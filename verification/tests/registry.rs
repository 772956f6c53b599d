use synaptic::error::SynapticError;
use synaptic::gate::is_command_allowed;
use synaptic::registry::{
    check_runtime_availability, get_builtin_registry, get_registry_server, runtime_command,
    InstallMethod,
};

#[test]
fn the_catalog_lists_five_servers() {
    let servers = get_builtin_registry();
    let ids: Vec<&str> = servers.iter().map(|s| s.id.as_str()).collect();
    assert_eq!(ids, vec!["filesystem", "sqlite", "github", "memory", "brave-search"]);
    for server in &servers {
        assert!(server.icon.is_none());
        assert!(server.default_config.enabled);
        assert!(server.default_config.cwd.is_none());
        assert_eq!(
            server.repo_url.as_deref(),
            Some("https://github.com/modelcontextprotocol/servers")
        );
        assert!(server.tags.contains(&"official".to_string()));
        assert_eq!(server.tags.len(), 3);
        assert!(is_command_allowed(&server.default_config.command));
    }
}

#[test]
fn catalog_entries_hold_their_settings() {
    let servers = get_builtin_registry();
    let fs = &servers[0];
    assert_eq!(fs.name, "Filesystem");
    assert!(fs.description.starts_with("Read/write access to local filesystem."));
    match &fs.install_method {
        InstallMethod::Npx { package } => {
            assert_eq!(package, "@modelcontextprotocol/server-filesystem")
        }
        other => panic!("unexpected: {other:?}"),
    }
    assert_eq!(fs.default_config.command, "npx");
    assert_eq!(
        fs.default_config.args,
        vec!["-y", "@modelcontextprotocol/server-filesystem", "C:\\Users"]
    );
    assert!(fs.default_config.env.is_empty());
    assert_eq!(fs.tags, vec!["filesystem", "official", "core"]);

    let sqlite = &servers[1];
    assert!(matches!(&sqlite.install_method, InstallMethod::Uvx { package } if package == "mcp-server-sqlite"));
    assert_eq!(sqlite.default_config.command, "uvx");
    assert_eq!(sqlite.default_config.args, vec!["mcp-server-sqlite", "--db-path", "database.db"]);

    let github = &servers[2];
    assert_eq!(github.name, "GitHub");
    assert_eq!(github.default_config.args, vec!["-y", "@modelcontextprotocol/server-github"]);
    assert_eq!(
        github.default_config.env,
        vec![("GITHUB_PERSONAL_ACCESS_TOKEN".to_string(), String::new())]
    );

    assert_eq!(servers[3].tags, vec!["memory", "knowledge", "official"]);
    let brave = &servers[4];
    assert_eq!(brave.name, "Brave Search");
    assert_eq!(brave.default_config.env, vec![("BRAVE_API_KEY".to_string(), String::new())]);
    assert_eq!(brave.tags, vec!["search", "web", "official"]);
}

#[test]
fn a_server_is_found_by_its_identifier() {
    assert_eq!(get_registry_server("memory").unwrap().name, "Memory");
    assert_eq!(get_registry_server("brave-search").unwrap().id, "brave-search");
    assert!(get_registry_server("Memory").is_none());
    assert!(get_registry_server("").is_none());
    assert!(get_registry_server("unknown").is_none());
}

#[test]
fn runtimes_map_to_their_probe() {
    for runtime in ["node", "npx"] {
        assert_eq!(runtime_command(runtime).unwrap(), "node");
    }
    for runtime in ["python", "python3", "uvx", "uv"] {
        assert_eq!(runtime_command(runtime).unwrap(), "python");
    }
    match runtime_command("ruby") {
        Err(SynapticError::RuntimeNotFound(detail)) => assert_eq!(detail, "Unknown runtime: ruby"),
        other => panic!("unexpected: {other:?}"),
    }
}

#[test]
fn the_status_reports_the_trimmed_version() {
    let found = check_runtime_availability("npx", Some("  v20.11.0\n")).unwrap();
    assert_eq!(found.runtime, "npx");
    assert!(found.available);
    assert_eq!(found.version.as_deref(), Some("v20.11.0"));
    assert_eq!(found.path, None);

    let missing = check_runtime_availability("uv", None).unwrap();
    assert_eq!(missing.runtime, "uv");
    assert!(!missing.available);
    assert_eq!(missing.version, None);

    assert!(matches!(
        check_runtime_availability("docker", Some("x")),
        Err(SynapticError::RuntimeNotFound(_))
    ));
}
