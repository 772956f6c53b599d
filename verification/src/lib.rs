//! Synaptic: the in-memory core of a manager for MCP servers. It decides
//! which executables may be launched, keeps the registry of running servers,
//! redacts secrets from observed traffic, and says what each stream pump and
//! each watchdog does next. Launching processes and moving bytes is left to
//! the program around it.

pub mod backups;
pub mod commands;
pub mod config;
pub mod error;
pub mod gate;
pub mod inspector;
pub mod keyed;
pub mod migrations;
pub mod outside;
pub mod paths;
pub mod process_manager;
pub mod pumps;
pub mod redaction_laws;
pub mod redactor;
pub mod registry;
pub mod state;
pub mod supervisor_laws;
pub mod text;
pub mod watchdog;

pub use config::{McpConfig, McpServer};
pub use error::{SupervisorError, SynapticError, SynapticResult};
pub use inspector::{InspectorMessage, InspectorSession, MessageDirection};
pub use process_manager::ProcessManager;
pub use registry::{InstallMethod, RegistryServer, RuntimeStatus};
pub use state::AppState;
