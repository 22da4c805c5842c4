//! The pinned release: its tag, where its assets are fetched from, and where
//! they are kept on disk.

use vstd::prelude::*;
use vstd::string::StringExecFns;

verus! {

/// The release tag of the server that this library launches.
pub const SERVER_VERSION: &'static str = "v0.1.16";

/// The address under which the assets of every release are found.
pub const GITHUB_RELEASE_URL: &'static str = "https://github.com/jbearak/sight/releases/download";

/// The asset that holds the server as a script for Node.
pub const NODE_SCRIPT_NAME: &'static str = "sight-server.js";

/// The flag that makes the server talk over standard input and output.
pub const STDIO_FLAG: &'static str = "--stdio";

/// The directory that holds the native binary of this release:
/// `sight-<version>`.
pub open spec fn spec_version_dir() -> Seq<char> {
    "sight-"@ + SERVER_VERSION@
}

/// The path of a native binary: `sight-<version>/<asset>`.
pub open spec fn spec_binary_path(asset_name: Seq<char>) -> Seq<char> {
    spec_version_dir() + "/"@ + asset_name
}

/// The address of an asset of this release: `<prefix>/<version>/<asset>`.
pub open spec fn spec_download_url(asset_name: Seq<char>) -> Seq<char> {
    GITHUB_RELEASE_URL@ + "/"@ + SERVER_VERSION@ + "/"@ + asset_name
}

/// The directory that holds the Node script of this release:
/// `sight-node-<version>`.
pub open spec fn spec_node_version_dir() -> Seq<char> {
    "sight-node-"@ + SERVER_VERSION@
}

/// The path of the Node script: `sight-node-<version>/sight-server.js`.
pub open spec fn spec_node_server_path() -> Seq<char> {
    spec_node_version_dir() + "/"@ + NODE_SCRIPT_NAME@
}

/// The address of the Node script of this release.
pub open spec fn spec_node_download_url() -> Seq<char> {
    spec_download_url(NODE_SCRIPT_NAME@)
}

/// The directory that holds the native binary of this release.
pub fn version_dir() -> (dir: String)
    ensures
        dir@ == spec_version_dir(),
{
    let mut dir = String::from_str("sight-");
    dir.append(SERVER_VERSION);
    dir
}

/// The path of the native binary `asset_name`.
pub fn binary_path(asset_name: &str) -> (path: String)
    ensures
        path@ == spec_binary_path(asset_name@),
{
    let mut path = version_dir();
    path.append("/");
    path.append(asset_name);
    path
}

/// The address of the asset `asset_name` of this release.
pub fn download_url(asset_name: &str) -> (url: String)
    ensures
        url@ == spec_download_url(asset_name@),
{
    let mut url = String::from_str(GITHUB_RELEASE_URL);
    url.append("/");
    url.append(SERVER_VERSION);
    url.append("/");
    url.append(asset_name);
    url
}

/// The directory that holds the Node script of this release.
pub fn node_version_dir() -> (dir: String)
    ensures
        dir@ == spec_node_version_dir(),
{
    let mut dir = String::from_str("sight-node-");
    dir.append(SERVER_VERSION);
    dir
}

/// The path of the Node script.
pub fn node_server_path() -> (path: String)
    ensures
        path@ == spec_node_server_path(),
{
    let mut path = node_version_dir();
    path.append("/");
    path.append(NODE_SCRIPT_NAME);
    path
}

/// The address of the Node script of this release.
pub fn node_download_url() -> (url: String)
    ensures
        url@ == spec_node_download_url(),
{
    download_url(NODE_SCRIPT_NAME)
}

/// A file of this release is not the directory that holds it, whatever the
/// asset is called.
pub proof fn lemma_file_is_not_its_directory(asset_name: Seq<char>)
    ensures
        spec_binary_path(asset_name) != spec_version_dir(),
        spec_node_server_path() != spec_node_version_dir(),
{
    reveal_strlit("/");
    assert(spec_binary_path(asset_name).len() > spec_version_dir().len());
    assert(spec_node_server_path().len() > spec_node_version_dir().len());
}

} // verus!
