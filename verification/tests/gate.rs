use synaptic::gate::{is_command_allowed, is_lowered_segment_allowed};

#[test]
fn test_command_whitelist() {
    assert!(is_command_allowed("npx"));
    assert!(is_command_allowed("node"));
    assert!(is_command_allowed("python"));
    assert!(is_command_allowed("uvx"));
    assert!(is_command_allowed("docker"));

    // With path
    assert!(is_command_allowed("/usr/bin/node"));
    assert!(is_command_allowed("C:\\Program Files\\node"));

    // With extension
    assert!(is_command_allowed("node.exe"));
    assert!(is_command_allowed("npx.cmd"));

    // Not allowed
    assert!(!is_command_allowed("bash"));
    assert!(!is_command_allowed("sh"));
    assert!(!is_command_allowed("cmd"));
    assert!(!is_command_allowed("powershell"));
    assert!(!is_command_allowed("rm"));
}

#[test]
fn every_listed_name_is_allowed() {
    for name in [
        "npx", "node", "npm", "uvx", "uv", "python", "python3", "pip", "pip3", "docker", "deno",
        "bun",
    ] {
        assert!(is_command_allowed(name), "{name}");
        assert!(is_lowered_segment_allowed(name), "{name}");
    }
}

#[test]
fn case_is_ignored() {
    assert!(is_command_allowed("NPX.CMD"));
    assert!(is_command_allowed("Node.EXE"));
    assert!(is_command_allowed("C:\\Tools\\PYTHON3.BAT"));
    assert!(!is_lowered_segment_allowed("NPX"));
    assert!(!is_lowered_segment_allowed("/usr/bin/node"));
    assert!(is_lowered_segment_allowed("node.bat"));
    assert!(!is_command_allowed("BASH"));
}

#[test]
fn only_the_last_segment_counts() {
    assert!(is_command_allowed("/bin/bash/../node"));
    assert!(!is_command_allowed("node/bash"));
    assert!(!is_command_allowed("/usr/bin/node/"));
    assert!(!is_command_allowed("node\\"));
    assert!(is_command_allowed("dir\\sub/deno"));
}

#[test]
fn one_launcher_suffix_is_stripped() {
    assert!(is_command_allowed("bun.bat"));
    assert!(is_command_allowed("pip3.exe"));
    assert!(!is_command_allowed("node.exe.exe"));
    assert!(!is_command_allowed("node.cmd.exe"));
    assert!(!is_command_allowed("node.sh"));
    assert!(!is_command_allowed(".exe"));
    assert!(!is_command_allowed("exe"));
    assert!(!is_command_allowed("nodeexe"));
}

#[test]
fn empty_and_near_misses_are_rejected() {
    assert!(!is_command_allowed(""));
    assert!(!is_command_allowed("/"));
    assert!(!is_command_allowed("nod"));
    assert!(!is_command_allowed("nodes"));
    assert!(!is_command_allowed(" node"));
    assert!(!is_command_allowed("node "));
    assert!(!is_command_allowed("python2"));
}
