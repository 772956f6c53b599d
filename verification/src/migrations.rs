//! The schema of the log database, as the migrations that build it.

use vstd::prelude::*;

verus! {

/// Whether a migration builds up or tears down.
#[derive(Debug, Clone, Copy, PartialEq, Eq, Structural)]
pub enum MigrationKind {
    Up,
    Down,
}

/// One step of the schema.
#[derive(Debug, Clone)]
pub struct Migration {
    /// Position of the step; steps are numbered from 1 without gaps.
    pub version: i64,
    /// What the step does.
    pub description: &'static str,
    /// The statements of the step.
    pub sql: &'static str,
    /// The direction of the step.
    pub kind: MigrationKind,
}

/// What each step is for.
pub open spec fn description_of(version: int) -> Seq<char> {
    if version == 1 {
        "Create system_logs table for persistent inspector logging"@
    } else {
        "Create sessions table for replay engine"@
    }
}

/// The statements of each step.
pub open spec fn statements_of(version: int) -> Seq<char> {
    if version == 1 {
        r#"
                CREATE TABLE IF NOT EXISTS system_logs (
                    id INTEGER PRIMARY KEY AUTOINCREMENT,
                    session_id TEXT NOT NULL,
                    timestamp INTEGER NOT NULL,
                    level TEXT NOT NULL DEFAULT 'INFO',
                    category TEXT NOT NULL DEFAULT 'GENERAL',
                    message TEXT,
                    payload JSON,
                    trace_id TEXT,
                    server_name TEXT,
                    direction TEXT
                );
                
                -- Indexes for fast filtering
                CREATE INDEX IF NOT EXISTS idx_logs_session ON system_logs(session_id);
                CREATE INDEX IF NOT EXISTS idx_logs_timestamp ON system_logs(timestamp);
                CREATE INDEX IF NOT EXISTS idx_logs_level ON system_logs(level);
                CREATE INDEX IF NOT EXISTS idx_logs_category ON system_logs(category);
                CREATE INDEX IF NOT EXISTS idx_logs_server ON system_logs(server_name);
            "#@
    } else {
        r#"
                CREATE TABLE IF NOT EXISTS sessions (
                    id TEXT PRIMARY KEY,
                    started_at INTEGER NOT NULL,
                    ended_at INTEGER,
                    server_name TEXT,
                    log_count INTEGER DEFAULT 0,
                    description TEXT
                );
                
                CREATE INDEX IF NOT EXISTS idx_sessions_started ON sessions(started_at);
            "#@
    }
}

/// The migrations of the log database, in the order in which they apply:
/// first the table of log entries with its indexes, then the table of
/// sessions.
pub fn get_migrations() -> (migrations: Vec<Migration>)
    ensures
        migrations@.len() == 2,
        forall|i: int|
            0 <= i < 2 ==> {
                &&& (#[trigger] migrations@[i]).version == i + 1
                &&& migrations@[i].kind == MigrationKind::Up
                &&& migrations@[i].description@ == description_of(i + 1)
                &&& migrations@[i].sql@ == statements_of(i + 1)
            },
{
    let mut migrations: Vec<Migration> = Vec::new();
    migrations.push(
        Migration {
            version: 1,
            description: "Create system_logs table for persistent inspector logging",
            sql: r#"
                CREATE TABLE IF NOT EXISTS system_logs (
                    id INTEGER PRIMARY KEY AUTOINCREMENT,
                    session_id TEXT NOT NULL,
                    timestamp INTEGER NOT NULL,
                    level TEXT NOT NULL DEFAULT 'INFO',
                    category TEXT NOT NULL DEFAULT 'GENERAL',
                    message TEXT,
                    payload JSON,
                    trace_id TEXT,
                    server_name TEXT,
                    direction TEXT
                );
                
                -- Indexes for fast filtering
                CREATE INDEX IF NOT EXISTS idx_logs_session ON system_logs(session_id);
                CREATE INDEX IF NOT EXISTS idx_logs_timestamp ON system_logs(timestamp);
                CREATE INDEX IF NOT EXISTS idx_logs_level ON system_logs(level);
                CREATE INDEX IF NOT EXISTS idx_logs_category ON system_logs(category);
                CREATE INDEX IF NOT EXISTS idx_logs_server ON system_logs(server_name);
            "#,
            kind: MigrationKind::Up,
        },
    );
    migrations.push(
        Migration {
            version: 2,
            description: "Create sessions table for replay engine",
            sql: r#"
                CREATE TABLE IF NOT EXISTS sessions (
                    id TEXT PRIMARY KEY,
                    started_at INTEGER NOT NULL,
                    ended_at INTEGER,
                    server_name TEXT,
                    log_count INTEGER DEFAULT 0,
                    description TEXT
                );
                
                CREATE INDEX IF NOT EXISTS idx_sessions_started ON sessions(started_at);
            "#,
            kind: MigrationKind::Up,
        },
    );
    migrations
}

} // verus!
