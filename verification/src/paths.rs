//! Where the configuration file, the application's data and the backups
//! live, as path components under a base directory that the platform names.

use vstd::prelude::*;
use vstd::string::StringExecFns;
use crate::error::SynapticError;
use crate::text::{option_str_text, texts_of};

verus! {

/// The platforms that the application knows.
#[derive(Debug, Clone, Copy, PartialEq, Eq, Structural)]
pub enum Platform {
    MacOs,
    Windows,
    Linux,
    /// Any other platform; nothing can be located on it.
    Other,
}

/// The base directory on a platform: the home directory on macOS, the
/// configuration directory on Windows and Linux.
pub open spec fn base_of(platform: Platform, home: Option<Seq<char>>, config: Option<Seq<char>>) -> Option<
    Seq<char>,
> {
    match platform {
        Platform::MacOs => home,
        Platform::Windows => config,
        Platform::Linux => config,
        Platform::Other => None,
    }
}

/// What is reported when a platform's base directory is not known.
pub open spec fn base_missing_text(platform: Platform) -> Seq<char> {
    match platform {
        Platform::MacOs => "Could not determine home directory"@,
        Platform::Windows => "Could not determine AppData directory"@,
        Platform::Linux => "Could not determine config directory"@,
        Platform::Other => "Unsupported operating system"@,
    }
}

/// The components that lead from the base directory to the client's
/// configuration file, the client's own directory being `client_dir`.
pub open spec fn client_config_tail(platform: Platform, client_dir: Seq<char>) -> Seq<Seq<char>> {
    match platform {
        Platform::MacOs => seq![
            "Library"@,
            "Application Support"@,
            client_dir,
            "claude_desktop_config.json"@,
        ],
        _ => seq![client_dir, "claude_desktop_config.json"@],
    }
}

/// The components that lead from the base directory to the application's
/// data directory.
pub open spec fn data_dir_tail(platform: Platform) -> Seq<Seq<char>> {
    match platform {
        Platform::MacOs => seq!["Library"@, "Application Support"@, "WeaR-Synaptic"@],
        _ => seq!["WeaR-Synaptic"@],
    }
}

/// The base directory followed by `tail`, or the error for a base directory
/// that is not known.
pub open spec fn located(
    platform: Platform,
    home: Option<Seq<char>>,
    config: Option<Seq<char>>,
    tail: Seq<Seq<char>>,
) -> Result<Seq<Seq<char>>, Seq<char>> {
    match base_of(platform, home, config) {
        Some(base) => Ok(seq![base] + tail),
        None => Err(base_missing_text(platform)),
    }
}

/// A path holds the components that `wanted` asks for, or the error is a
/// missing configuration with the text that `wanted` gives.
pub open spec fn is_location(
    outcome: Result<Vec<String>, SynapticError>,
    wanted: Result<Seq<Seq<char>>, Seq<char>>,
) -> bool {
    match outcome {
        Ok(path) => wanted == Ok::<Seq<Seq<char>>, Seq<char>>(texts_of(path@)),
        Err(error) => {
            &&& error matches SynapticError::ConfigNotFound(detail)
            &&& wanted == Err::<Seq<Seq<char>>, Seq<char>>(detail@)
        },
    }
}

/// The base directory of a platform, or the error that says which directory
/// could not be determined.
pub fn base_directory(platform: Platform, home_dir: Option<&str>, config_dir: Option<&str>) -> (outcome:
    Result<String, SynapticError>)
    ensures
        match outcome {
            Ok(base) => base_of(platform, option_str_text(home_dir), option_str_text(config_dir))
                == Some(base@),
            Err(error) => {
                &&& base_of(platform, option_str_text(home_dir), option_str_text(config_dir))
                    is None
                &&& error matches SynapticError::ConfigNotFound(detail)
                &&& detail@ == base_missing_text(platform)
            },
        },
{
    let (found, complaint) = match platform {
        Platform::MacOs => (home_dir, "Could not determine home directory"),
        Platform::Windows => (config_dir, "Could not determine AppData directory"),
        Platform::Linux => (config_dir, "Could not determine config directory"),
        Platform::Other => (None, "Unsupported operating system"),
    };
    match found {
        Some(base) => Ok(base.to_owned()),
        None => Err(SynapticError::ConfigNotFound(String::from_str(complaint))),
    }
}

/// The path of the desktop client's configuration file, as components: the
/// platform's base directory first. The name of the client's own directory
/// is given by the caller.
pub fn get_claude_config_path(
    platform: Platform,
    home_dir: Option<&str>,
    config_dir: Option<&str>,
    client_dir: &str,
) -> (outcome: Result<Vec<String>, SynapticError>)
    ensures
        is_location(
            outcome,
            located(
                platform,
                option_str_text(home_dir),
                option_str_text(config_dir),
                client_config_tail(platform, client_dir@),
            ),
        ),
{
    match base_directory(platform, home_dir, config_dir) {
        Ok(base) => {
            let ghost start = base@;
            let mut path: Vec<String> = Vec::new();
            path.push(base);
            match platform {
                Platform::MacOs => {
                    path.push(String::from_str("Library"));
                    path.push(String::from_str("Application Support"));
                },
                _ => {},
            }
            path.push(client_dir.to_owned());
            path.push(String::from_str("claude_desktop_config.json"));
            assert(texts_of(path@) =~= seq![start] + client_config_tail(platform, client_dir@));
            Ok(path)
        },
        Err(error) => Err(error),
    }
}

/// The path of the application's data directory, as components.
pub fn get_synaptic_data_dir(
    platform: Platform,
    home_dir: Option<&str>,
    config_dir: Option<&str>,
) -> (outcome: Result<Vec<String>, SynapticError>)
    ensures
        is_location(
            outcome,
            located(
                platform,
                option_str_text(home_dir),
                option_str_text(config_dir),
                data_dir_tail(platform),
            ),
        ),
{
    match base_directory(platform, home_dir, config_dir) {
        Ok(base) => {
            let ghost start = base@;
            let mut path: Vec<String> = Vec::new();
            path.push(base);
            match platform {
                Platform::MacOs => {
                    path.push(String::from_str("Library"));
                    path.push(String::from_str("Application Support"));
                },
                _ => {},
            }
            path.push(String::from_str("WeaR-Synaptic"));
            assert(texts_of(path@) =~= seq![start] + data_dir_tail(platform));
            Ok(path)
        },
        Err(error) => Err(error),
    }
}

/// The path of the backups directory, as components: `backups` under the
/// application's data directory.
pub fn get_backups_dir(platform: Platform, home_dir: Option<&str>, config_dir: Option<&str>) -> (outcome:
    Result<Vec<String>, SynapticError>)
    ensures
        is_location(
            outcome,
            located(
                platform,
                option_str_text(home_dir),
                option_str_text(config_dir),
                data_dir_tail(platform).push("backups"@),
            ),
        ),
{
    match get_synaptic_data_dir(platform, home_dir, config_dir) {
        Ok(path) => {
            let mut path = path;
            let ghost before = texts_of(path@);
            path.push(String::from_str("backups"));
            assert(texts_of(path@) =~= before.push("backups"@));
            assert(seq![before[0]] + data_dir_tail(platform).push("backups"@) =~= before.push(
                "backups"@,
            ));
            Ok(path)
        },
        Err(error) => Err(error),
    }
}

} // verus!
