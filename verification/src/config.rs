//! The configuration of MCP servers: one server's settings, the set of
//! servers by name, and the edits that the application makes to that set.

use vstd::prelude::*;
use serde_json::Value;
use crate::error::SynapticError;
use crate::keyed::{distinct_keys, has_key, index_of_key, lemma_map_empty, lemma_map_entry,
    lemma_map_push, lemma_map_remove, lemma_map_size, lemma_map_update, map_of};
use crate::text::{option_text, same_text, texts_of};

verus! {

/// The pairs of an environment as characters.
pub open spec fn env_of(env: Seq<(String, String)>) -> Seq<(Seq<char>, Seq<char>)> {
    Seq::new(env.len(), |i: int| (env[i].0@, env[i].1@))
}

/// Settings of one MCP server.
#[derive(Debug, Clone)]
pub struct McpServer {
    /// Command to execute, such as `npx`, `uvx` or `node`.
    pub command: String,
    /// Arguments passed to the command.
    pub args: Vec<String>,
    /// Environment variables of the server process, as pairs of name and
    /// value; no name stands twice.
    pub env: Vec<(String, String)>,
    /// Working directory, if any.
    pub cwd: Option<String>,
    /// Whether the server is enabled.
    pub enabled: bool,
}

/// Settings of one MCP server as plain data.
pub struct McpServerView {
    pub command: Seq<char>,
    pub args: Seq<Seq<char>>,
    pub env: Seq<(Seq<char>, Seq<char>)>,
    pub cwd: Option<Seq<char>>,
    pub enabled: bool,
}

impl View for McpServer {
    type V = McpServerView;

    open spec fn view(&self) -> McpServerView {
        McpServerView {
            command: self.command@,
            args: texts_of(self.args@),
            env: env_of(self.env@),
            cwd: option_text(self.cwd),
            enabled: self.enabled,
        }
    }
}

impl McpServerView {
    /// No variable is named twice in the environment.
    pub open spec fn well_formed(self) -> bool {
        forall|i: int, j: int|
            0 <= i < self.env.len() && 0 <= j < self.env.len() && i != j ==> self.env[i].0
                != self.env[j].0
    }
}

/// A server is enabled unless its settings say otherwise.
pub fn default_true() -> (enabled: bool)
    ensures
        enabled,
{
    true
}

impl McpServer {
    /// Settings with the given command and arguments: no environment, no
    /// working directory, enabled.
    pub fn new(command: &str, args: Vec<String>) -> (server: Self)
        ensures
            server.command@ == command@,
            server.args == args,
            server.env@.len() == 0,
            server.cwd is None,
            server.enabled,
            server@.well_formed(),
    {
        McpServer {
            command: command.to_owned(),
            args,
            env: Vec::new(),
            cwd: None,
            enabled: default_true(),
        }
    }

    /// A copy of the settings.
    pub fn duplicate(&self) -> (copy: Self)
        ensures
            copy@ == self@,
    {
        let mut args: Vec<String> = Vec::new();
        let mut i: usize = 0;
        while i < self.args.len()
            invariant
                i <= self.args@.len(),
                args@.len() == i,
                forall|k: int| 0 <= k < i ==> args@[k]@ == self.args@[k]@,
            decreases self.args@.len() - i,
        {
            args.push(self.args[i].clone());
            i += 1;
        }
        let mut env: Vec<(String, String)> = Vec::new();
        let mut j: usize = 0;
        while j < self.env.len()
            invariant
                j <= self.env@.len(),
                env@.len() == j,
                forall|k: int|
                    0 <= k < j ==> env@[k].0@ == self.env@[k].0@ && env@[k].1@ == self.env@[k].1@,
            decreases self.env@.len() - j,
        {
            env.push((self.env[j].0.clone(), self.env[j].1.clone()));
            j += 1;
        }
        let cwd = match &self.cwd {
            Some(dir) => Some(dir.clone()),
            None => None,
        };
        let copy = McpServer { command: self.command.clone(), args, env, cwd, enabled: self.enabled };
        assert(texts_of(copy.args@) =~= texts_of(self.args@));
        assert(env_of(copy.env@) =~= env_of(self.env@));
        copy
    }
}

/// The named servers of a list, as plain data.
pub open spec fn server_entries(servers: Seq<(String, McpServer)>) -> Seq<
    (Seq<char>, McpServerView),
> {
    Seq::new(servers.len(), |i: int| (servers[i].0@, servers[i].1@))
}

/// The configuration: the MCP servers by name, and whatever else the
/// configuration file held, kept as it was.
#[derive(Debug)]
pub struct McpConfig {
    mcp_servers: Vec<(String, McpServer)>,
    extra: Vec<(String, Value)>,
}

/// The configuration as plain data: the servers by name, and the fields
/// that this library does not know, as they are.
pub struct McpConfigView {
    pub servers: Map<Seq<char>, McpServerView>,
    pub extras: Seq<(String, Value)>,
}

impl View for McpConfig {
    type V = McpConfigView;

    open spec fn view(&self) -> McpConfigView {
        McpConfigView { servers: self.servers(), extras: self.extras() }
    }
}

impl McpConfig {
    #[verifier::type_invariant]
    spec fn well_formed(self) -> bool {
        distinct_keys(server_entries(self.mcp_servers@))
    }

    /// The servers by name.
    pub closed spec fn servers(&self) -> Map<Seq<char>, McpServerView> {
        map_of(server_entries(self.mcp_servers@))
    }

    /// Fields of the configuration file that this library does not know,
    /// each with its name, in the order of the file.
    pub closed spec fn extras(&self) -> Seq<(String, Value)> {
        self.extra@
    }

    /// The fields that this library does not know.
    pub fn extra(&self) -> (fields: &Vec<(String, Value)>)
        ensures
            fields@ == self.extras(),
    {
        &self.extra
    }

    /// Replaces the fields that this library does not know.
    pub fn set_extra(&mut self, fields: Vec<(String, Value)>)
        ensures
            final(self).extras() == fields@,
            final(self).servers() == old(self).servers(),
    {
        proof {
            use_type_invariant(&*self);
        }
        let mut fields = fields;
        core::mem::swap(&mut self.extra, &mut fields);
    }

    /// A configuration without servers.
    pub fn new() -> (config: Self)
        ensures
            config.servers() == Map::<Seq<char>, McpServerView>::empty(),
            config.extras().len() == 0,
    {
        let config = McpConfig { mcp_servers: Vec::new(), extra: Vec::new() };
        proof {
            lemma_map_empty(server_entries(config.mcp_servers@));
        }
        config
    }

    /// Index of the server named `name`, if there is one.
    fn position(&self, name: &str) -> (found: Option<usize>)
        ensures
            match found {
                Some(i) => i < self.mcp_servers@.len() && self.mcp_servers@[i as int].0@ == name@,
                None => !has_key(server_entries(self.mcp_servers@), name@),
            },
    {
        let mut i: usize = 0;
        while i < self.mcp_servers.len()
            invariant
                i <= self.mcp_servers@.len(),
                forall|k: int| 0 <= k < i ==> self.mcp_servers@[k].0@ != name@,
            decreases self.mcp_servers@.len() - i,
        {
            if same_text(self.mcp_servers[i].0.as_str(), name) {
                return Some(i);
            }
            i += 1;
        }
        assert forall|k: int| 0 <= k < self.mcp_servers@.len() implies (
        #[trigger] server_entries(self.mcp_servers@)[k]).0 != name@ by {}
        None
    }

    /// Takes the servers out, leaving none behind.
    fn take_servers(&mut self) -> (servers: Vec<(String, McpServer)>)
        ensures
            servers@ == old(self).mcp_servers@,
            distinct_keys(server_entries(servers@)),
            final(self).mcp_servers@.len() == 0,
            final(self).extras() == old(self).extras(),
    {
        proof {
            use_type_invariant(&*self);
        }
        let mut servers: Vec<(String, McpServer)> = Vec::new();
        proof {
            lemma_map_empty(server_entries(servers@));
        }
        core::mem::swap(&mut self.mcp_servers, &mut servers);
        servers
    }

    /// Puts `servers` in the place of the servers held now.
    fn put_servers(&mut self, servers: Vec<(String, McpServer)>)
        requires
            distinct_keys(server_entries(servers@)),
        ensures
            final(self).mcp_servers@ == servers@,
            final(self).extras() == old(self).extras(),
    {
        let mut servers = servers;
        core::mem::swap(&mut self.mcp_servers, &mut servers);
    }

    /// How many servers are configured.
    pub fn len(&self) -> (n: usize)
        ensures
            self.servers().dom().finite(),
            n == self.servers().dom().len(),
    {
        proof {
            use_type_invariant(self);
            lemma_map_size(server_entries(self.mcp_servers@));
        }
        self.mcp_servers.len()
    }

    /// Whether a server is configured under `name`.
    pub fn contains_server(&self, name: &str) -> (found: bool)
        ensures
            found == self.servers().dom().contains(name@),
    {
        let found = self.position(name);
        proof {
            if let Some(i) = found {
                assert(server_entries(self.mcp_servers@)[i as int].0 == name@);
            }
        }
        found.is_some()
    }

    /// The settings of the server named `name`.
    pub fn get_server(&self, name: &str) -> (found: Option<&McpServer>)
        ensures
            match found {
                Some(server) => self.servers().dom().contains(name@) && self.servers()[name@]
                    == server@,
                None => !self.servers().dom().contains(name@),
            },
    {
        proof {
            use_type_invariant(self);
        }
        match self.position(name) {
            Some(i) => {
                proof {
                    lemma_map_entry(server_entries(self.mcp_servers@), i as int);
                }
                Some(&self.mcp_servers[i].1)
            },
            None => None,
        }
    }

    /// The names of the configured servers, each once.
    pub fn server_names(&self) -> (names: Vec<String>)
        ensures
            texts_of(names@).no_duplicates(),
            forall|name: Seq<char>|
                texts_of(names@).contains(name) <==> self.servers().dom().contains(name),
    {
        proof {
            use_type_invariant(self);
        }
        let mut names: Vec<String> = Vec::new();
        let mut i: usize = 0;
        while i < self.mcp_servers.len()
            invariant
                i <= self.mcp_servers@.len(),
                names@.len() == i,
                forall|k: int| 0 <= k < i ==> names@[k]@ == self.mcp_servers@[k].0@,
            decreases self.mcp_servers@.len() - i,
        {
            names.push(self.mcp_servers[i].0.clone());
            i += 1;
        }
        proof {
            let listed = texts_of(names@);
            let entries = server_entries(self.mcp_servers@);
            assert forall|a: int, b: int|
                0 <= a < listed.len() && 0 <= b < listed.len() && a != b implies listed[a]
                != listed[b] by {
                assert(entries[a].0 == listed[a] && entries[b].0 == listed[b]);
            }
            assert forall|name: Seq<char>| listed.contains(name) <==> self.servers().dom().contains(
                name,
            ) by {
                if listed.contains(name) {
                    let k = choose|k: int| 0 <= k < listed.len() && listed[k] == name;
                    assert(entries[k].0 == name);
                }
                if has_key(entries, name) {
                    let k = index_of_key(entries, name);
                    assert(listed[k] == name);
                }
            }
        }
        names
    }

    /// A copy of the configuration.
    pub fn duplicate(&self) -> (copy: Self)
        ensures
            copy.servers() == self.servers(),
            copy.extras() == self.extras(),
    {
        proof {
            use_type_invariant(self);
        }
        let mut servers: Vec<(String, McpServer)> = Vec::new();
        let mut i: usize = 0;
        while i < self.mcp_servers.len()
            invariant
                i <= self.mcp_servers@.len(),
                servers@.len() == i,
                forall|k: int|
                    0 <= k < i ==> servers@[k].0@ == self.mcp_servers@[k].0@ && servers@[k].1@
                        == self.mcp_servers@[k].1@,
            decreases self.mcp_servers@.len() - i,
        {
            servers.push((self.mcp_servers[i].0.clone(), self.mcp_servers[i].1.duplicate()));
            i += 1;
        }
        assert(server_entries(servers@) =~= server_entries(self.mcp_servers@));
        let mut extra: Vec<(String, Value)> = Vec::new();
        let mut j: usize = 0;
        while j < self.extra.len()
            invariant
                j <= self.extra@.len(),
                extra@ == self.extra@.take(j as int),
            decreases self.extra@.len() - j,
        {
            extra.push((self.extra[j].0.clone(), self.extra[j].1.clone()));
            assert(self.extra@.take(j + 1) =~= self.extra@.take(j as int).push(
                self.extra@[j as int],
            ));
            j += 1;
        }
        assert(self.extra@.take(j as int) =~= self.extra@);
        McpConfig { mcp_servers: servers, extra }
    }

    /// Adds a server under a name that is not yet taken. A taken name is an
    /// error that names it, and nothing changes.
    pub fn add_server(&mut self, name: String, server: McpServer) -> (outcome: Result<
        (),
        SynapticError,
    >)
        ensures
            final(self).extras() == old(self).extras(),
            match outcome {
                Ok(_) => {
                    &&& !old(self).servers().dom().contains(name@)
                    &&& final(self).servers() == old(self).servers().insert(name@, server@)
                },
                Err(error) => {
                    &&& old(self).servers().dom().contains(name@)
                    &&& error == SynapticError::ServerAlreadyExists(name)
                    &&& final(self).servers() == old(self).servers()
                },
            },
    {
        match self.position(name.as_str()) {
            Some(i) => {
                proof {
                    assert(server_entries(self.mcp_servers@)[i as int].0 == name@);
                }
                Err(SynapticError::ServerAlreadyExists(name))
            },
            None => {
                let mut servers = self.take_servers();
                proof {
                    lemma_map_push(server_entries(servers@), name@, server@);
                    assert(server_entries(servers@.push((name, server))) =~= server_entries(
                        servers@,
                    ).push((name@, server@)));
                }
                servers.push((name, server));
                self.put_servers(servers);
                Ok(())
            },
        }
    }

    /// Removes the server named `name`. A name that is not configured is an
    /// error that names it, and nothing changes.
    pub fn remove_server(&mut self, name: &str) -> (outcome: Result<(), SynapticError>)
        ensures
            final(self).extras() == old(self).extras(),
            match outcome {
                Ok(_) => {
                    &&& old(self).servers().dom().contains(name@)
                    &&& final(self).servers() == old(self).servers().remove(name@)
                },
                Err(error) => {
                    &&& !old(self).servers().dom().contains(name@)
                    &&& error matches SynapticError::ServerNotFound(detail)
                    &&& detail@ == name@
                    &&& final(self).servers() == old(self).servers()
                },
            },
    {
        match self.position(name) {
            Some(i) => {
                let mut servers = self.take_servers();
                proof {
                    let entries = server_entries(servers@);
                    lemma_map_entry(entries, i as int);
                    lemma_map_remove(entries, i as int);
                    assert(server_entries(servers@.remove(i as int)) =~= entries.remove(i as int));
                }
                let _ = servers.remove(i);
                self.put_servers(servers);
                Ok(())
            },
            None => Err(SynapticError::ServerNotFound(name.to_owned())),
        }
    }

    /// Replaces the settings of the server named `name`. A name that is not
    /// configured is an error that names it, and nothing changes.
    pub fn update_server(&mut self, name: &str, server: McpServer) -> (outcome: Result<
        (),
        SynapticError,
    >)
        ensures
            final(self).extras() == old(self).extras(),
            match outcome {
                Ok(_) => {
                    &&& old(self).servers().dom().contains(name@)
                    &&& final(self).servers() == old(self).servers().insert(name@, server@)
                },
                Err(error) => {
                    &&& !old(self).servers().dom().contains(name@)
                    &&& error matches SynapticError::ServerNotFound(detail)
                    &&& detail@ == name@
                    &&& final(self).servers() == old(self).servers()
                },
            },
    {
        match self.position(name) {
            Some(i) => {
                let mut servers = self.take_servers();
                proof {
                    let entries = server_entries(servers@);
                    lemma_map_entry(entries, i as int);
                    lemma_map_update(entries, i as int, server@);
                }
                let ghost before = servers@;
                let (key, _) = servers.remove(i);
                servers.insert(i, (key, server));
                proof {
                    assert(server_entries(servers@) =~= server_entries(before).update(
                        i as int,
                        (name@, server@),
                    ));
                }
                self.put_servers(servers);
                Ok(())
            },
            None => Err(SynapticError::ServerNotFound(name.to_owned())),
        }
    }

    /// Enables or disables the server named `name` and leaves its other
    /// settings alone. A name that is not configured is an error that names
    /// it, and nothing changes.
    pub fn toggle_server(&mut self, name: &str, enabled: bool) -> (outcome: Result<
        (),
        SynapticError,
    >)
        ensures
            final(self).extras() == old(self).extras(),
            match outcome {
                Ok(_) => {
                    &&& old(self).servers().dom().contains(name@)
                    &&& final(self).servers() == old(self).servers().insert(
                        name@,
                        McpServerView { enabled, ..old(self).servers()[name@] },
                    )
                },
                Err(error) => {
                    &&& !old(self).servers().dom().contains(name@)
                    &&& error matches SynapticError::ServerNotFound(detail)
                    &&& detail@ == name@
                    &&& final(self).servers() == old(self).servers()
                },
            },
    {
        match self.position(name) {
            Some(i) => {
                let mut servers = self.take_servers();
                let ghost before = servers@;
                proof {
                    lemma_map_entry(server_entries(before), i as int);
                }
                let (key, mut server) = servers.remove(i);
                server.enabled = enabled;
                proof {
                    lemma_map_update(server_entries(before), i as int, server@);
                }
                servers.insert(i, (key, server));
                proof {
                    assert(server_entries(servers@) =~= server_entries(before).update(
                        i as int,
                        (name@, server@),
                    ));
                }
                self.put_servers(servers);
                Ok(())
            },
            None => Err(SynapticError::ServerNotFound(name.to_owned())),
        }
    }
}

impl Default for McpConfig {
    fn default() -> (config: Self)
        ensures
            config.servers() == Map::<Seq<char>, McpServerView>::empty(),
            config.extras().len() == 0,
    {
        McpConfig::new()
    }
}

} // verus!
