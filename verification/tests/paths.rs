use synaptic::backups::{
    backup_filename, backup_from_entry, backup_missing, find_last_dot, new_backup_filename,
};
use synaptic::error::SynapticError;
use synaptic::migrations::{get_migrations, MigrationKind};
use synaptic::paths::{
    base_directory, get_backups_dir, get_claude_config_path, get_synaptic_data_dir, Platform,
};

#[test]
fn the_client_configuration_is_located_per_platform() {
    assert_eq!(
        get_claude_config_path(Platform::Linux, Some("/home/u"), Some("/home/u/.config"), "Client")
            .unwrap(),
        vec!["/home/u/.config", "Client", "claude_desktop_config.json"]
    );
    assert_eq!(
        get_claude_config_path(Platform::Windows, None, Some("C:\\Users\\u\\AppData"), "Client")
            .unwrap(),
        vec!["C:\\Users\\u\\AppData", "Client", "claude_desktop_config.json"]
    );
    assert_eq!(
        get_claude_config_path(Platform::MacOs, Some("/Users/u"), None, "Client").unwrap(),
        vec![
            "/Users/u",
            "Library",
            "Application Support",
            "Client",
            "claude_desktop_config.json"
        ]
    );
}

#[test]
fn a_missing_base_directory_is_named() {
    let cases = [
        (Platform::MacOs, None, Some("/c"), "Could not determine home directory"),
        (Platform::Windows, Some("/h"), None, "Could not determine AppData directory"),
        (Platform::Linux, Some("/h"), None, "Could not determine config directory"),
        (Platform::Other, Some("/h"), Some("/c"), "Unsupported operating system"),
    ];
    for (platform, home, config, text) in cases {
        for outcome in [
            get_claude_config_path(platform, home, config, "Client"),
            get_synaptic_data_dir(platform, home, config),
            get_backups_dir(platform, home, config),
        ] {
            match outcome {
                Err(SynapticError::ConfigNotFound(detail)) => assert_eq!(detail, text),
                other => panic!("unexpected: {other:?}"),
            }
        }
        assert!(base_directory(platform, home, config).is_err());
    }
    assert_eq!(base_directory(Platform::MacOs, Some("/h"), None).unwrap(), "/h");
}

#[test]
fn data_and_backups_live_under_the_base_directory() {
    assert_eq!(
        get_synaptic_data_dir(Platform::Linux, None, Some("/c")).unwrap(),
        vec!["/c", "WeaR-Synaptic"]
    );
    assert_eq!(
        get_synaptic_data_dir(Platform::MacOs, Some("/h"), None).unwrap(),
        vec!["/h", "Library", "Application Support", "WeaR-Synaptic"]
    );
    assert_eq!(
        get_backups_dir(Platform::Windows, None, Some("/c")).unwrap(),
        vec!["/c", "WeaR-Synaptic", "backups"]
    );
    assert_eq!(
        get_backups_dir(Platform::MacOs, Some("/h"), None).unwrap(),
        vec!["/h", "Library", "Application Support", "WeaR-Synaptic", "backups"]
    );
}

#[test]
fn backup_files_are_told_by_their_extension() {
    let info = backup_from_entry("2024-01-02T03-04-05.json", Some(42), "now".to_string()).unwrap();
    assert_eq!(info.id, "2024-01-02T03-04-05");
    assert_eq!(info.filename, "2024-01-02T03-04-05.json");
    assert_eq!(info.created_at, "now");
    assert_eq!(info.size_bytes, 42);
    assert_eq!(backup_from_entry("a.b.json", None, String::new()).unwrap().id, "a.b");
    assert_eq!(backup_from_entry("a.b.json", None, String::new()).unwrap().size_bytes, 0);
    for name in ["notes.txt", "json", ".json", "a.JSON", "a.json.bak", "a.", "", "a.jsonx", ".."] {
        assert!(backup_from_entry(name, Some(1), String::new()).is_none(), "{name}");
    }
}

#[test]
fn backup_names_round_trip() {
    assert_eq!(backup_filename("2024-01-02T03-04-05"), "2024-01-02T03-04-05.json");
    let name = backup_filename("id");
    assert_eq!(backup_from_entry(&name, None, String::new()).unwrap().id, "id");
    let fresh = new_backup_filename();
    assert!(fresh.ends_with(".json"));
    assert_eq!(fresh.len(), "2024-01-02T03-04-05.json".len());
    assert!(backup_from_entry(&fresh, None, String::new()).is_some());
    match backup_missing("x") {
        SynapticError::BackupError(detail) => assert_eq!(detail, "Backup not found: x"),
        other => panic!("unexpected: {other:?}"),
    }
}

#[test]
fn the_last_dot_is_found() {
    let chars = |s: &str| s.chars().collect::<Vec<char>>();
    assert_eq!(find_last_dot(&chars("a.b.c")), Some(3));
    assert_eq!(find_last_dot(&chars(".a")), Some(0));
    assert_eq!(find_last_dot(&chars("abc")), None);
    assert_eq!(find_last_dot(&chars("")), None);
}

#[test]
fn test_migrations_valid() {
    let migrations = get_migrations();
    assert!(!migrations.is_empty());

    // Ensure versions are sequential
    for (i, m) in migrations.iter().enumerate() {
        assert_eq!(m.version, (i + 1) as i64);
    }
}

#[test]
fn migrations_build_the_two_tables() {
    let migrations = get_migrations();
    assert_eq!(migrations.len(), 2);
    assert_eq!(
        migrations[0].description,
        "Create system_logs table for persistent inspector logging"
    );
    assert!(migrations[0].sql.contains("CREATE TABLE IF NOT EXISTS system_logs"));
    assert!(migrations[0].sql.contains("idx_logs_server ON system_logs(server_name)"));
    assert_eq!(migrations[1].description, "Create sessions table for replay engine");
    assert!(migrations[1].sql.contains("CREATE TABLE IF NOT EXISTS sessions"));
    assert!(migrations.iter().all(|m| m.kind == MigrationKind::Up));
}
