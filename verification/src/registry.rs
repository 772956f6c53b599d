//! The catalog of installable MCP servers, and the check for the runtime that
//! a server needs.

use vstd::prelude::*;
use vstd::string::StringExecFns;
use crate::config::{env_of, McpServer, McpServerView};
use crate::error::{joined, SynapticError};
use crate::gate::{allowed_names, lemma_listed_names_are_allowed, lowered_segment_allowed};
use crate::text::{option_text, same_text, texts_of, trimmed, trimmed_text};

verus! {

/// How a catalog server is installed.
#[derive(Debug, Clone)]
pub enum InstallMethod {
    /// Run via npx (Node.js).
    Npx { package: String },
    /// Run via uvx (Python/uv).
    Uvx { package: String },
    /// Clone from a git repository.
    GitClone { url: String, build_command: Option<String> },
    /// Download a binary.
    Binary { url: String },
}

/// An install method as plain data.
pub enum InstallMethodView {
    Npx { package: Seq<char> },
    Uvx { package: Seq<char> },
    GitClone { url: Seq<char>, build_command: Option<Seq<char>> },
    Binary { url: Seq<char> },
}

impl View for InstallMethod {
    type V = InstallMethodView;

    open spec fn view(&self) -> InstallMethodView {
        match self {
            InstallMethod::Npx { package } => InstallMethodView::Npx { package: package@ },
            InstallMethod::Uvx { package } => InstallMethodView::Uvx { package: package@ },
            InstallMethod::GitClone { url, build_command } => InstallMethodView::GitClone {
                url: url@,
                build_command: option_text(*build_command),
            },
            InstallMethod::Binary { url } => InstallMethodView::Binary { url: url@ },
        }
    }
}

/// One server of the catalog.
#[derive(Debug, Clone)]
pub struct RegistryServer {
    /// Unique identifier.
    pub id: String,
    /// Human-readable name.
    pub name: String,
    /// What the server does.
    pub description: String,
    /// Icon URL or embedded base64.
    pub icon: Option<String>,
    /// How the server is installed.
    pub install_method: InstallMethod,
    /// The settings that an installation starts from.
    pub default_config: McpServer,
    /// Where the source lives.
    pub repo_url: Option<String>,
    /// Tags for categorization.
    pub tags: Vec<String>,
}

/// A catalog server as plain data.
pub struct RegistryServerView {
    pub id: Seq<char>,
    pub name: Seq<char>,
    pub description: Seq<char>,
    pub icon: Option<Seq<char>>,
    pub install_method: InstallMethodView,
    pub default_config: McpServerView,
    pub repo_url: Option<Seq<char>>,
    pub tags: Seq<Seq<char>>,
}

impl View for RegistryServer {
    type V = RegistryServerView;

    open spec fn view(&self) -> RegistryServerView {
        RegistryServerView {
            id: self.id@,
            name: self.name@,
            description: self.description@,
            icon: option_text(self.icon),
            install_method: self.install_method@,
            default_config: self.default_config@,
            repo_url: option_text(self.repo_url),
            tags: texts_of(self.tags@),
        }
    }
}

/// Whether a runtime was found on this machine.
#[derive(Debug, Clone)]
pub struct RuntimeStatus {
    pub runtime: String,
    pub available: bool,
    pub version: Option<String>,
    pub path: Option<String>,
}

/// The views of a list of catalog servers.
pub open spec fn catalog_of(servers: Seq<RegistryServer>) -> Seq<RegistryServerView> {
    Seq::new(servers.len(), |i: int| servers[i]@)
}

/// A catalog server from the official collection: no icon, no working
/// directory, enabled, with `env` as its environment.
pub open spec fn official_server(
    id: Seq<char>,
    name: Seq<char>,
    description: Seq<char>,
    install_method: InstallMethodView,
    command: Seq<char>,
    args: Seq<Seq<char>>,
    env: Seq<(Seq<char>, Seq<char>)>,
    tags: Seq<Seq<char>>,
) -> RegistryServerView {
    RegistryServerView {
        id,
        name,
        description,
        icon: None,
        install_method,
        default_config: McpServerView { command, args, env, cwd: None, enabled: true },
        repo_url: Some("https://github.com/modelcontextprotocol/servers"@),
        tags,
    }
}

/// The built-in catalog.
pub open spec fn builtin_catalog() -> Seq<RegistryServerView> {
    seq![
        official_server(
            "filesystem"@,
            "Filesystem"@,
            "Read/write access to local filesystem. Allows the assistant to browse, read, and write files in specified directories."@,
            InstallMethodView::Npx { package: "@modelcontextprotocol/server-filesystem"@ },
            "npx"@,
            seq!["-y"@, "@modelcontextprotocol/server-filesystem"@, "C:\\Users"@],
            seq![],
            seq!["filesystem"@, "official"@, "core"@],
        ),
        official_server(
            "sqlite"@,
            "SQLite"@,
            "Query and manage SQLite databases. Enables the assistant to run SQL queries and explore database schemas."@,
            InstallMethodView::Uvx { package: "mcp-server-sqlite"@ },
            "uvx"@,
            seq!["mcp-server-sqlite"@, "--db-path"@, "database.db"@],
            seq![],
            seq!["database"@, "sql"@, "official"@],
        ),
        official_server(
            "github"@,
            "GitHub"@,
            "Interact with GitHub repositories. Create issues, PRs, search code, and manage repositories."@,
            InstallMethodView::Npx { package: "@modelcontextprotocol/server-github"@ },
            "npx"@,
            seq!["-y"@, "@modelcontextprotocol/server-github"@],
            seq![("GITHUB_PERSONAL_ACCESS_TOKEN"@, ""@)],
            seq!["git"@, "vcs"@, "official"@],
        ),
        official_server(
            "memory"@,
            "Memory"@,
            "Persistent memory and knowledge graph. Allows the assistant to remember information across conversations."@,
            InstallMethodView::Npx { package: "@modelcontextprotocol/server-memory"@ },
            "npx"@,
            seq!["-y"@, "@modelcontextprotocol/server-memory"@],
            seq![],
            seq!["memory"@, "knowledge"@, "official"@],
        ),
        official_server(
            "brave-search"@,
            "Brave Search"@,
            "Web search powered by Brave. Search the web and get summarized results."@,
            InstallMethodView::Npx { package: "@modelcontextprotocol/server-brave-search"@ },
            "npx"@,
            seq!["-y"@, "@modelcontextprotocol/server-brave-search"@],
            seq![("BRAVE_API_KEY"@, ""@)],
            seq!["search"@, "web"@, "official"@],
        ),
    ]
}

/// The catalog is sound: its identifiers are distinct, every entry launches
/// a program of the allow-list, and no entry names an environment variable
/// twice.
pub proof fn lemma_catalog_is_sound()
    ensures
        forall|i: int, j: int|
            0 <= i < j < builtin_catalog().len() ==> builtin_catalog()[i].id
                != builtin_catalog()[j].id,
        forall|i: int|
            0 <= i < builtin_catalog().len() ==> lowered_segment_allowed(
                (#[trigger] builtin_catalog()[i]).default_config.command,
            ),
        forall|i: int|
            0 <= i < builtin_catalog().len() ==> (
            #[trigger] builtin_catalog()[i]).default_config.well_formed(),
{
    reveal_strlit("filesystem");
    reveal_strlit("sqlite");
    reveal_strlit("github");
    reveal_strlit("memory");
    reveal_strlit("brave-search");
    let catalog = builtin_catalog();
    assert(catalog[0].id[0] == 'f' && catalog[1].id[0] == 's' && catalog[2].id[0] == 'g'
        && catalog[3].id[0] == 'm' && catalog[4].id[0] == 'b');
    assert(allowed_names()[0] == "npx"@ && allowed_names()[3] == "uvx"@);
    lemma_listed_names_are_allowed("npx"@, Seq::empty());
    lemma_listed_names_are_allowed("uvx"@, Seq::empty());
    assert("npx"@ + Seq::<char>::empty() =~= "npx"@);
    assert("uvx"@ + Seq::<char>::empty() =~= "uvx"@);
}

/// The strings `a`, `b`, `c` as a list; an absent one is left out.
fn listed(a: &str, b: &str, c: Option<&str>) -> (list: Vec<String>)
    ensures
        texts_of(list@) == match c {
            Some(third) => seq![a@, b@, third@],
            None => seq![a@, b@],
        },
{
    let mut list: Vec<String> = Vec::new();
    list.push(String::from_str(a));
    list.push(String::from_str(b));
    match c {
        Some(third) => {
            list.push(String::from_str(third));
            assert(texts_of(list@) =~= seq![a@, b@, third@]);
        },
        None => {
            assert(texts_of(list@) =~= seq![a@, b@]);
        },
    }
    list
}

/// An environment with the variable `key` left empty, or with no variable.
fn env_with(key: Option<&str>) -> (env: Vec<(String, String)>)
    ensures
        env_of(env@) == match key {
            Some(k) => seq![(k@, ""@)],
            None => Seq::<(Seq<char>, Seq<char>)>::empty(),
        },
{
    let mut env: Vec<(String, String)> = Vec::new();
    match key {
        Some(k) => {
            env.push((String::from_str(k), String::from_str("")));
            assert(env_of(env@) =~= seq![(k@, ""@)]);
        },
        None => {
            assert(env_of(env@) =~= Seq::<(Seq<char>, Seq<char>)>::empty());
        },
    }
    env
}

/// A catalog server from the official collection.
fn official(
    id: &str,
    name: &str,
    description: &str,
    install_method: InstallMethod,
    command: &str,
    args: Vec<String>,
    env: Vec<(String, String)>,
    tags: Vec<String>,
) -> (server: RegistryServer)
    ensures
        server@ == official_server(
            id@,
            name@,
            description@,
            install_method@,
            command@,
            texts_of(args@),
            env_of(env@),
            texts_of(tags@),
        ),
{
    RegistryServer {
        id: String::from_str(id),
        name: String::from_str(name),
        description: String::from_str(description),
        icon: None,
        install_method,
        default_config: McpServer {
            command: String::from_str(command),
            args,
            env,
            cwd: None,
            enabled: true,
        },
        repo_url: Some(String::from_str("https://github.com/modelcontextprotocol/servers")),
        tags,
    }
}

/// The built-in list of popular MCP servers.
pub fn get_builtin_registry() -> (servers: Vec<RegistryServer>)
    ensures
        catalog_of(servers@) == builtin_catalog(),
{
    let mut servers: Vec<RegistryServer> = Vec::new();
    servers.push(
        official(
            "filesystem",
            "Filesystem",
            "Read/write access to local filesystem. Allows the assistant to browse, read, and write files in specified directories.",
            InstallMethod::Npx {
                package: String::from_str("@modelcontextprotocol/server-filesystem"),
            },
            "npx",
            listed("-y", "@modelcontextprotocol/server-filesystem", Some("C:\\Users")),
            env_with(None),
            listed("filesystem", "official", Some("core")),
        ),
    );
    servers.push(
        official(
            "sqlite",
            "SQLite",
            "Query and manage SQLite databases. Enables the assistant to run SQL queries and explore database schemas.",
            InstallMethod::Uvx { package: String::from_str("mcp-server-sqlite") },
            "uvx",
            listed("mcp-server-sqlite", "--db-path", Some("database.db")),
            env_with(None),
            listed("database", "sql", Some("official")),
        ),
    );
    servers.push(
        official(
            "github",
            "GitHub",
            "Interact with GitHub repositories. Create issues, PRs, search code, and manage repositories.",
            InstallMethod::Npx { package: String::from_str("@modelcontextprotocol/server-github") },
            "npx",
            listed("-y", "@modelcontextprotocol/server-github", None),
            env_with(Some("GITHUB_PERSONAL_ACCESS_TOKEN")),
            listed("git", "vcs", Some("official")),
        ),
    );
    servers.push(
        official(
            "memory",
            "Memory",
            "Persistent memory and knowledge graph. Allows the assistant to remember information across conversations.",
            InstallMethod::Npx { package: String::from_str("@modelcontextprotocol/server-memory") },
            "npx",
            listed("-y", "@modelcontextprotocol/server-memory", None),
            env_with(None),
            listed("memory", "knowledge", Some("official")),
        ),
    );
    servers.push(
        official(
            "brave-search",
            "Brave Search",
            "Web search powered by Brave. Search the web and get summarized results.",
            InstallMethod::Npx {
                package: String::from_str("@modelcontextprotocol/server-brave-search"),
            },
            "npx",
            listed("-y", "@modelcontextprotocol/server-brave-search", None),
            env_with(Some("BRAVE_API_KEY")),
            listed("search", "web", Some("official")),
        ),
    );
    assert(catalog_of(servers@) =~= builtin_catalog());
    servers
}

/// The first server of `catalog` with the identifier `id`, if any.
pub open spec fn find_in_catalog(catalog: Seq<RegistryServerView>, id: Seq<char>) -> Option<
    RegistryServerView,
>
    decreases catalog.len(),
{
    if catalog.len() == 0 {
        None
    } else if catalog[0].id == id {
        Some(catalog[0])
    } else {
        find_in_catalog(catalog.drop_first(), id)
    }
}

/// The catalog server with the identifier `id`.
pub fn get_registry_server(id: &str) -> (server: Option<RegistryServer>)
    ensures
        match server {
            Some(found) => find_in_catalog(builtin_catalog(), id@) == Some(found@),
            None => find_in_catalog(builtin_catalog(), id@) is None,
        },
{
    let mut servers = get_builtin_registry();
    let ghost catalog = builtin_catalog();
    let mut i: usize = 0;
    assert(catalog.skip(0) =~= catalog);
    while i < servers.len()
        invariant
            i <= servers@.len(),
            catalog == builtin_catalog(),
            catalog_of(servers@) == catalog,
            find_in_catalog(catalog, id@) == find_in_catalog(catalog.skip(i as int), id@),
        decreases servers@.len() - i,
    {
        assert(catalog.skip(i as int)[0] == servers@[i as int]@);
        assert(catalog.skip(i as int).drop_first() =~= catalog.skip(i + 1));
        if same_text(servers[i].id.as_str(), id) {
            let ghost here = servers@[i as int]@;
            assert(catalog.skip(i as int).len() > 0 && catalog.skip(i as int)[0].id == id@);
            assert(find_in_catalog(catalog.skip(i as int), id@) == Some(here));
            let found = servers.swap_remove(i);
            return Some(found);
        }
        assert(catalog.skip(i as int)[0].id != id@);
        i += 1;
    }
    None
}

/// The program whose `--version` tells whether `runtime` is installed:
/// `node` for node and npx, `python` for python, python3, uvx and uv.
pub open spec fn probe_of(runtime: Seq<char>) -> Option<Seq<char>> {
    if runtime == "node"@ || runtime == "npx"@ {
        Some("node"@)
    } else if runtime == "python"@ || runtime == "python3"@ || runtime == "uvx"@ || runtime
        == "uv"@ {
        Some("python"@)
    } else {
        None
    }
}

/// The program to run with `--version` in order to check for `runtime`. A
/// runtime that is not known is an error that names it.
pub fn runtime_command(runtime: &str) -> (command: Result<&'static str, SynapticError>)
    ensures
        match command {
            Ok(program) => probe_of(runtime@) == Some(program@),
            Err(error) => {
                &&& probe_of(runtime@) is None
                &&& error matches SynapticError::RuntimeNotFound(detail)
                &&& detail@ == "Unknown runtime: "@ + runtime@
            },
        },
{
    if same_text(runtime, "node") || same_text(runtime, "npx") {
        Ok("node")
    } else if same_text(runtime, "python") || same_text(runtime, "python3") || same_text(
        runtime,
        "uvx",
    ) || same_text(runtime, "uv") {
        Ok("python")
    } else {
        Err(SynapticError::RuntimeNotFound(joined("Unknown runtime: ", runtime)))
    }
}

/// The status of `runtime`, given what its probe printed when it ran and
/// succeeded, or `None` when it did not. The version is the output without
/// surrounding whitespace. A runtime that is not known is an error.
pub fn check_runtime_availability(runtime: &str, output: Option<&str>) -> (status: Result<
    RuntimeStatus,
    SynapticError,
>)
    ensures
        match status {
            Ok(found) => {
                &&& probe_of(runtime@) is Some
                &&& found.runtime@ == runtime@
                &&& found.available == output is Some
                &&& option_text(found.version) == match output {
                    Some(text) => Some(trimmed_text(text@)),
                    None => None,
                }
                &&& found.path is None
            },
            Err(error) => {
                &&& probe_of(runtime@) is None
                &&& error matches SynapticError::RuntimeNotFound(detail)
                &&& detail@ == "Unknown runtime: "@ + runtime@
            },
        },
{
    match runtime_command(runtime) {
        Ok(_) => {
            let version = match output {
                Some(text) => Some(trimmed(text)),
                None => None,
            };
            Ok(
                RuntimeStatus {
                    runtime: runtime.to_owned(),
                    available: output.is_some(),
                    version,
                    path: None,
                },
            )
        },
        Err(error) => Err(error),
    }
}

} // verus!
