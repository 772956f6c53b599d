//! Error types: what the backend reports, and how a report is worded.

use vstd::prelude::*;
use vstd::std_specs::convert::FromSpecImpl;
use vstd::string::StringExecFns;
use crate::gate::{allow_list_label, allow_list_text};
use crate::outside::{io_error_text, json_error_text};

verus! {

/// `head` followed by `tail`.
pub fn joined(head: &str, tail: &str) -> (out: String)
    ensures
        out@ == head@ + tail@,
{
    let mut out = String::from_str(head);
    out.append(tail);
    out
}

/// Application-wide error. Every variant carries the detail that follows the
/// variant's fixed wording in the error's text.
#[derive(Debug)]
pub enum SynapticError {
    ConfigNotFound(String),
    ConfigReadError(String),
    ConfigWriteError(String),
    ConfigParseError(String),
    ServerNotFound(String),
    ServerAlreadyExists(String),
    BackupError(String),
    InspectorError(String),
    RegistryError(String),
    RuntimeNotFound(String),
    IoError(String),
    ProcessError(String),
}

/// Result of a backend operation.
pub type SynapticResult<T> = Result<T, SynapticError>;

impl SynapticError {
    /// The detail that the error carries.
    pub open spec fn detail(self) -> Seq<char> {
        match self {
            SynapticError::ConfigNotFound(s) => s@,
            SynapticError::ConfigReadError(s) => s@,
            SynapticError::ConfigWriteError(s) => s@,
            SynapticError::ConfigParseError(s) => s@,
            SynapticError::ServerNotFound(s) => s@,
            SynapticError::ServerAlreadyExists(s) => s@,
            SynapticError::BackupError(s) => s@,
            SynapticError::InspectorError(s) => s@,
            SynapticError::RegistryError(s) => s@,
            SynapticError::RuntimeNotFound(s) => s@,
            SynapticError::IoError(s) => s@,
            SynapticError::ProcessError(s) => s@,
        }
    }

    /// The fixed wording that opens the error's text.
    pub open spec fn heading(self) -> Seq<char> {
        match self {
            SynapticError::ConfigNotFound(_) => "Configuration file not found: "@,
            SynapticError::ConfigReadError(_) => "Failed to read configuration: "@,
            SynapticError::ConfigWriteError(_) => "Failed to write configuration: "@,
            SynapticError::ConfigParseError(_) => "Failed to parse configuration: "@,
            SynapticError::ServerNotFound(_) => "Server not found: "@,
            SynapticError::ServerAlreadyExists(_) => "Server already exists: "@,
            SynapticError::BackupError(_) => "Backup operation failed: "@,
            SynapticError::InspectorError(_) => "Inspector error: "@,
            SynapticError::RegistryError(_) => "Registry error: "@,
            SynapticError::RuntimeNotFound(_) => "Runtime not found: "@,
            SynapticError::IoError(_) => "IO error: "@,
            SynapticError::ProcessError(_) => "Process error: "@,
        }
    }

    /// The machine-readable code of the error's kind.
    pub open spec fn code_text(self) -> Seq<char> {
        match self {
            SynapticError::ConfigNotFound(_) => "CONFIG_NOT_FOUND"@,
            SynapticError::ConfigReadError(_) => "CONFIG_READ_ERROR"@,
            SynapticError::ConfigWriteError(_) => "CONFIG_WRITE_ERROR"@,
            SynapticError::ConfigParseError(_) => "CONFIG_PARSE_ERROR"@,
            SynapticError::ServerNotFound(_) => "SERVER_NOT_FOUND"@,
            SynapticError::ServerAlreadyExists(_) => "SERVER_ALREADY_EXISTS"@,
            SynapticError::BackupError(_) => "BACKUP_ERROR"@,
            SynapticError::InspectorError(_) => "INSPECTOR_ERROR"@,
            SynapticError::RegistryError(_) => "REGISTRY_ERROR"@,
            SynapticError::RuntimeNotFound(_) => "RUNTIME_NOT_FOUND"@,
            SynapticError::IoError(_) => "IO_ERROR"@,
            SynapticError::ProcessError(_) => "PROCESS_ERROR"@,
        }
    }

    /// The error's text: heading, then detail.
    pub open spec fn message_text(self) -> Seq<char> {
        self.heading() + self.detail()
    }

    /// The error's text, as shown to a person.
    pub fn message(&self) -> (text: String)
        ensures
            text@ == self.message_text(),
    {
        match self {
            SynapticError::ConfigNotFound(s) => joined(
                "Configuration file not found: ",
                s.as_str(),
            ),
            SynapticError::ConfigReadError(s) => joined(
                "Failed to read configuration: ",
                s.as_str(),
            ),
            SynapticError::ConfigWriteError(s) => joined(
                "Failed to write configuration: ",
                s.as_str(),
            ),
            SynapticError::ConfigParseError(s) => joined(
                "Failed to parse configuration: ",
                s.as_str(),
            ),
            SynapticError::ServerNotFound(s) => joined("Server not found: ", s.as_str()),
            SynapticError::ServerAlreadyExists(s) => joined("Server already exists: ", s.as_str()),
            SynapticError::BackupError(s) => joined("Backup operation failed: ", s.as_str()),
            SynapticError::InspectorError(s) => joined("Inspector error: ", s.as_str()),
            SynapticError::RegistryError(s) => joined("Registry error: ", s.as_str()),
            SynapticError::RuntimeNotFound(s) => joined("Runtime not found: ", s.as_str()),
            SynapticError::IoError(s) => joined("IO error: ", s.as_str()),
            SynapticError::ProcessError(s) => joined("Process error: ", s.as_str()),
        }
    }

    /// The code of the error's kind.
    pub fn code(&self) -> (code: String)
        ensures
            code@ == self.code_text(),
    {
        let code = match self {
            SynapticError::ConfigNotFound(_) => "CONFIG_NOT_FOUND",
            SynapticError::ConfigReadError(_) => "CONFIG_READ_ERROR",
            SynapticError::ConfigWriteError(_) => "CONFIG_WRITE_ERROR",
            SynapticError::ConfigParseError(_) => "CONFIG_PARSE_ERROR",
            SynapticError::ServerNotFound(_) => "SERVER_NOT_FOUND",
            SynapticError::ServerAlreadyExists(_) => "SERVER_ALREADY_EXISTS",
            SynapticError::BackupError(_) => "BACKUP_ERROR",
            SynapticError::InspectorError(_) => "INSPECTOR_ERROR",
            SynapticError::RegistryError(_) => "REGISTRY_ERROR",
            SynapticError::RuntimeNotFound(_) => "RUNTIME_NOT_FOUND",
            SynapticError::IoError(_) => "IO_ERROR",
            SynapticError::ProcessError(_) => "PROCESS_ERROR",
        };
        String::from_str(code)
    }

    /// A copy of the error.
    pub fn clone_as_error(&self) -> (copy: Self)
        ensures
            copy == *self,
    {
        match self {
            SynapticError::ConfigNotFound(s) => SynapticError::ConfigNotFound(s.clone()),
            SynapticError::ConfigReadError(s) => SynapticError::ConfigReadError(s.clone()),
            SynapticError::ConfigWriteError(s) => SynapticError::ConfigWriteError(s.clone()),
            SynapticError::ConfigParseError(s) => SynapticError::ConfigParseError(s.clone()),
            SynapticError::ServerNotFound(s) => SynapticError::ServerNotFound(s.clone()),
            SynapticError::ServerAlreadyExists(s) => SynapticError::ServerAlreadyExists(s.clone()),
            SynapticError::BackupError(s) => SynapticError::BackupError(s.clone()),
            SynapticError::InspectorError(s) => SynapticError::InspectorError(s.clone()),
            SynapticError::RegistryError(s) => SynapticError::RegistryError(s.clone()),
            SynapticError::RuntimeNotFound(s) => SynapticError::RuntimeNotFound(s.clone()),
            SynapticError::IoError(s) => SynapticError::IoError(s.clone()),
            SynapticError::ProcessError(s) => SynapticError::ProcessError(s.clone()),
        }
    }
}

/// An error as the frontend receives it: the kind's code and the text.
#[derive(Debug, Clone)]
pub struct ErrorResponse {
    pub code: String,
    pub message: String,
}

impl From<SynapticError> for ErrorResponse {
    fn from(err: SynapticError) -> (response: Self)
        ensures
            response.code@ == err.code_text(),
            response.message@ == err.message_text(),
    {
        ErrorResponse { code: err.code(), message: err.message() }
    }
}

impl FromSpecImpl<SynapticError> for ErrorResponse {
    open spec fn obeys_from_spec() -> bool {
        false
    }

    open spec fn from_spec(err: SynapticError) -> Self {
        arbitrary()
    }
}

impl From<std::io::Error> for SynapticError {
    fn from(err: std::io::Error) -> (error: Self)
        ensures
            error is IoError,
    {
        SynapticError::IoError(io_error_text(&err))
    }
}

impl FromSpecImpl<std::io::Error> for SynapticError {
    open spec fn obeys_from_spec() -> bool {
        false
    }

    open spec fn from_spec(err: std::io::Error) -> Self {
        arbitrary()
    }
}

impl From<serde_json::Error> for SynapticError {
    fn from(err: serde_json::Error) -> (error: Self)
        ensures
            error is ConfigParseError,
    {
        SynapticError::ConfigParseError(json_error_text(&err))
    }
}

impl FromSpecImpl<serde_json::Error> for SynapticError {
    open spec fn obeys_from_spec() -> bool {
        false
    }

    open spec fn from_spec(err: serde_json::Error) -> Self {
        arbitrary()
    }
}

/// Why the process supervisor refused or failed a request.
#[derive(Debug)]
pub enum SupervisorError {
    /// The executable is not on the allow-list.
    CommandNotAllowed { command: String },
    /// A process is already registered under the name.
    AlreadyRunning { name: String },
    /// No process is registered under the name.
    NotFound { name: String },
    /// The operating system did not create the process.
    SpawnFailed { reason: String },
    /// A queue is closed, or a message could not be delivered.
    ProcessError { reason: String },
}

/// A supervisor error as plain data.
pub enum SupervisorFault {
    CommandNotAllowed(Seq<char>),
    AlreadyRunning(Seq<char>),
    NotFound(Seq<char>),
    SpawnFailed(Seq<char>),
    ProcessError(Seq<char>),
}

impl View for SupervisorError {
    type V = SupervisorFault;

    open spec fn view(&self) -> SupervisorFault {
        match self {
            SupervisorError::CommandNotAllowed { command } => SupervisorFault::CommandNotAllowed(
                command@,
            ),
            SupervisorError::AlreadyRunning { name } => SupervisorFault::AlreadyRunning(name@),
            SupervisorError::NotFound { name } => SupervisorFault::NotFound(name@),
            SupervisorError::SpawnFailed { reason } => SupervisorFault::SpawnFailed(reason@),
            SupervisorError::ProcessError { reason } => SupervisorFault::ProcessError(reason@),
        }
    }
}

impl SupervisorFault {
    /// The text of the fault. A refusal by the command gate names the command
    /// and the allow-list.
    pub open spec fn message_text(self) -> Seq<char> {
        match self {
            SupervisorFault::CommandNotAllowed(command) => "Command not allowed: "@ + command
                + ". Allowed: "@ + allow_list_text(),
            SupervisorFault::AlreadyRunning(name) => "Server already running: "@ + name,
            SupervisorFault::NotFound(name) => "Process not found: "@ + name,
            SupervisorFault::SpawnFailed(reason) => "Failed to spawn: "@ + reason,
            SupervisorFault::ProcessError(reason) => reason,
        }
    }
}

impl SupervisorError {
    /// The error's text, as shown to a person.
    pub fn message(&self) -> (text: String)
        ensures
            text@ == self@.message_text(),
    {
        match self {
            SupervisorError::CommandNotAllowed { command } => {
                let mut text = joined("Command not allowed: ", command.as_str());
                text.append(". Allowed: ");
                text.append(allow_list_label());
                text
            },
            SupervisorError::AlreadyRunning { name } => joined(
                "Server already running: ",
                name.as_str(),
            ),
            SupervisorError::NotFound { name } => joined("Process not found: ", name.as_str()),
            SupervisorError::SpawnFailed { reason } => joined("Failed to spawn: ", reason.as_str()),
            SupervisorError::ProcessError { reason } => reason.clone(),
        }
    }

    /// The error for a payload that could not be queued because the queue is
    /// closed; `reason` is the channel's complaint.
    pub fn send_failed(reason: &str) -> (error: Self)
        ensures
            error@ == SupervisorFault::ProcessError("Failed to send: "@ + reason@),
    {
        SupervisorError::ProcessError { reason: joined("Failed to send: ", reason) }
    }

    /// The error for a process that was created but has no process id.
    pub fn pid_missing() -> (error: Self)
        ensures
            error@ == SupervisorFault::ProcessError("Failed to get PID"@),
    {
        SupervisorError::ProcessError { reason: String::from_str("Failed to get PID") }
    }

    /// The error as the rest of the backend reports it: a process error that
    /// carries this error's text.
    pub fn into_synaptic(self) -> (error: SynapticError)
        ensures
            error matches SynapticError::ProcessError(text) && text@ == self@.message_text(),
    {
        SynapticError::ProcessError(self.message())
    }
}

} // verus!
