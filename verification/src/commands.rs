//! The requests of the frontend, as far as they are decided in memory: what
//! each one does to the configuration, the supervisor and the captured
//! messages.

use vstd::prelude::*;
use crate::config::{env_of, McpConfig};
use crate::error::{joined, SynapticError};
use crate::inspector::{messages_of, InspectorMessage};
use crate::process_manager::{env_values, spawn_mcp_server, spawn_refusal, ProcessManager, SpawnPlan};
use crate::redactor::register_all;
use crate::registry::{builtin_catalog, find_in_catalog, get_registry_server};
use crate::state::{page_of, page_range, paginate, AppState};
use crate::text::{option_text, texts_of};

verus! {

/// The name under which a catalog server is installed: the custom name where
/// one is given, else the server's identifier.
pub open spec fn install_name(server_id: Seq<char>, custom_name: Option<String>) -> Seq<char> {
    match custom_name {
        Some(name) => name@,
        None => server_id,
    }
}

/// Installs the catalog server `server_id` into `config`, under the custom
/// name where one is given and under its identifier otherwise, with the
/// settings that the catalog holds for it. An identifier that the catalog
/// does not know, or a name that is taken, is an error and changes nothing.
pub fn install_registry_server(
    config: &mut McpConfig,
    server_id: &str,
    custom_name: Option<String>,
) -> (outcome: Result<(), SynapticError>)
    ensures
        final(config).extras() == old(config).extras(),
        match find_in_catalog(builtin_catalog(), server_id@) {
            None => {
                &&& outcome matches Err(SynapticError::RegistryError(detail))
                &&& detail@ == "Server not found: "@ + server_id@
                &&& final(config).servers() == old(config).servers()
            },
            Some(entry) => {
                let name = install_name(entry.id, custom_name);
                if old(config).servers().dom().contains(name) {
                    &&& outcome matches Err(SynapticError::ServerAlreadyExists(taken))
                    &&& taken@ == name
                    &&& final(config).servers() == old(config).servers()
                } else {
                    &&& outcome is Ok
                    &&& final(config).servers() == old(config).servers().insert(
                        name,
                        entry.default_config,
                    )
                }
            },
        },
{
    match get_registry_server(server_id) {
        Some(entry) => {
            let name = match custom_name {
                Some(name) => name,
                None => entry.id.clone(),
            };
            config.add_server(name, entry.default_config)
        },
        None => Err(SynapticError::RegistryError(joined("Server not found: ", server_id))),
    }
}

/// Asks the supervisor to spawn the server that `config` holds under `name`,
/// with the command, arguments, environment and working directory configured
/// for it. A name that is not configured is an error; a refusal by the
/// supervisor is reported as a process error with the refusal's text.
pub fn spawn_server(config: &McpConfig, process_manager: &mut ProcessManager, name: String) -> (outcome:
    Result<SpawnPlan, SynapticError>)
    ensures
        final(process_manager).processes() == old(process_manager).processes(),
        if !config.servers().dom().contains(name@) {
            &&& outcome matches Err(SynapticError::ServerNotFound(missing))
            &&& missing@ == name@
            &&& final(process_manager).secrets() == old(process_manager).secrets()
            &&& final(process_manager).issued() == old(process_manager).issued()
        } else {
            let server = config.servers()[name@];
            match spawn_refusal(
                old(process_manager).processes(),
                name@,
                server.command,
                old(process_manager).issued(),
            ) {
                Some(fault) => {
                    &&& outcome matches Err(SynapticError::ProcessError(text))
                    &&& text@ == fault.message_text()
                    &&& final(process_manager).secrets() == old(process_manager).secrets()
                    &&& final(process_manager).issued() == old(process_manager).issued()
                },
                None => {
                    &&& outcome matches Ok(plan)
                    &&& plan.server_name@ == name@
                    &&& plan.command@ == server.command
                    &&& texts_of(plan.args@) == server.args
                    &&& env_of(plan.env@) == server.env
                    &&& option_text(plan.cwd) == server.cwd
                    &&& plan.handle == old(process_manager).issued()
                    &&& final(process_manager).issued() == old(process_manager).issued() + 1
                    &&& plan.secrets@ == final(process_manager).secrets()
                    &&& final(process_manager).secrets() == register_all(
                        old(process_manager).secrets(),
                        env_values(plan.env@),
                    )
                },
            }
        },
{
    let server = match config.get_server(name.as_str()) {
        Some(server) => server.duplicate(),
        None => {
            return Err(SynapticError::ServerNotFound(name));
        },
    };
    match spawn_mcp_server(
        process_manager,
        name,
        server.command,
        server.args,
        server.env,
        server.cwd,
    ) {
        Ok(plan) => Ok(plan),
        Err(refusal) => Err(refusal.into_synaptic()),
    }
}

/// One page of the messages captured for `server_name`: `limit` messages at
/// most, 100 unless told otherwise, from the message at `offset` on, the
/// first unless told otherwise.
pub fn get_inspector_messages(
    state: &AppState,
    server_name: &str,
    limit: Option<usize>,
    offset: Option<usize>,
) -> (page: Vec<InspectorMessage>)
    ensures
        messages_of(page@) == page_of(
            state.messages(server_name@),
            page_range(limit, offset).0,
            page_range(limit, offset).1,
        ),
{
    let messages = state.get_inspector_messages(server_name);
    paginate(&messages, limit, offset)
}

} // verus!
