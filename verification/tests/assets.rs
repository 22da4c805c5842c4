use sight_resolver::command::Command;
use sight_resolver::error::ResolveError;
use sight_resolver::platform::{asset_name, Architecture, Os};
use sight_resolver::release::{
    binary_path, download_url, node_download_url, node_server_path, node_version_dir, version_dir,
    GITHUB_RELEASE_URL, NODE_SCRIPT_NAME, SERVER_VERSION, STDIO_FLAG,
};
use sight_resolver::step::Artifact;

#[test]
fn linux_x64_scenario() {
    let name = asset_name(Os::Linux, Architecture::X8664).unwrap();
    assert_eq!(name, "sight-linux-x64");
    assert_eq!(version_dir(), "sight-v0.1.16");
    assert_eq!(binary_path(name), "sight-v0.1.16/sight-linux-x64");
    assert_eq!(
        download_url(name),
        "https://github.com/jbearak/sight/releases/download/v0.1.16/sight-linux-x64"
    );
}

#[test]
fn intel_mac_gets_the_arm64_asset() {
    assert_eq!(asset_name(Os::Mac, Architecture::X8664), Ok("sight-darwin-arm64"));
    assert_eq!(
        asset_name(Os::Mac, Architecture::X8664),
        asset_name(Os::Mac, Architecture::Aarch64)
    );
}

#[test]
fn every_platform_has_its_row_of_the_table() {
    assert_eq!(asset_name(Os::Mac, Architecture::Aarch64), Ok("sight-darwin-arm64"));
    assert_eq!(asset_name(Os::Mac, Architecture::X8664), Ok("sight-darwin-arm64"));
    assert_eq!(asset_name(Os::Linux, Architecture::Aarch64), Ok("sight-linux-arm64"));
    assert_eq!(asset_name(Os::Linux, Architecture::X8664), Ok("sight-linux-x64"));
    assert_eq!(asset_name(Os::Windows, Architecture::Aarch64), Ok("sight-windows-x64.exe"));
    assert_eq!(asset_name(Os::Windows, Architecture::X86), Ok("sight-windows-x64.exe"));
    assert_eq!(asset_name(Os::Windows, Architecture::X8664), Ok("sight-windows-x64.exe"));
    assert_eq!(
        asset_name(Os::Mac, Architecture::X86),
        Err(ResolveError::UnsupportedPlatform { os: Os::Mac, arch: Architecture::X86 })
    );
    assert_eq!(
        asset_name(Os::Linux, Architecture::X86),
        Err(ResolveError::UnsupportedPlatform { os: Os::Linux, arch: Architecture::X86 })
    );
}

#[test]
fn asset_name_gives_the_same_answer_each_time() {
    let systems = [Os::Mac, Os::Linux, Os::Windows];
    let architectures = [Architecture::Aarch64, Architecture::X86, Architecture::X8664];
    for os in systems {
        for arch in architectures {
            assert_eq!(asset_name(os, arch), asset_name(os, arch));
        }
    }
}

#[test]
fn release_constants() {
    assert_eq!(SERVER_VERSION, "v0.1.16");
    assert_eq!(GITHUB_RELEASE_URL, "https://github.com/jbearak/sight/releases/download");
    assert_eq!(NODE_SCRIPT_NAME, "sight-server.js");
    assert_eq!(STDIO_FLAG, "--stdio");
}

#[test]
fn node_script_layout() {
    assert_eq!(node_version_dir(), "sight-node-v0.1.16");
    assert_eq!(node_server_path(), "sight-node-v0.1.16/sight-server.js");
    assert_eq!(
        node_download_url(),
        "https://github.com/jbearak/sight/releases/download/v0.1.16/sight-server.js"
    );
}

#[test]
fn paths_and_addresses_append_the_asset_as_it_is() {
    assert_eq!(binary_path(""), "sight-v0.1.16/");
    assert_eq!(binary_path("a b"), "sight-v0.1.16/a b");
    assert_eq!(
        download_url("x/y"),
        "https://github.com/jbearak/sight/releases/download/v0.1.16/x/y"
    );
}

#[test]
fn artifact_of_a_native_binary() {
    let artifact = Artifact::Binary { asset_name: "sight-linux-arm64".to_string() };
    assert_eq!(artifact.asset_name(), "sight-linux-arm64");
    assert_eq!(artifact.dir(), "sight-v0.1.16");
    assert_eq!(artifact.path(), "sight-v0.1.16/sight-linux-arm64");
    assert_eq!(
        artifact.url(),
        "https://github.com/jbearak/sight/releases/download/v0.1.16/sight-linux-arm64"
    );
    assert_eq!(
        artifact.command("somewhere/else".to_string()),
        Command {
            command: "somewhere/else".to_string(),
            args: vec!["--stdio".to_string()],
            env: vec![],
        }
    );
}

#[test]
fn artifact_of_the_node_script() {
    let artifact = Artifact::Script { interpreter: "/opt/node/bin/node".to_string() };
    assert_eq!(artifact.asset_name(), "sight-server.js");
    assert_eq!(artifact.dir(), "sight-node-v0.1.16");
    assert_eq!(artifact.path(), "sight-node-v0.1.16/sight-server.js");
    assert_eq!(
        artifact.url(),
        "https://github.com/jbearak/sight/releases/download/v0.1.16/sight-server.js"
    );
    assert_eq!(
        artifact.command("script.js".to_string()),
        Command {
            command: "/opt/node/bin/node".to_string(),
            args: vec!["script.js".to_string(), "--stdio".to_string()],
            env: vec![],
        }
    );
}

#[test]
fn commands_pass_the_stdio_flag_last() {
    assert_eq!(
        Command::native("bin/sight".to_string()),
        Command { command: "bin/sight".to_string(), args: vec!["--stdio".to_string()], env: vec![] }
    );
    assert_eq!(
        Command::interpreted("node".to_string(), "server.js".to_string()),
        Command {
            command: "node".to_string(),
            args: vec!["server.js".to_string(), "--stdio".to_string()],
            env: vec![],
        }
    );
}
