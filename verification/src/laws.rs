//! What holds of every resolution.

use vstd::prelude::*;

use crate::command::CommandView;
use crate::error::ResolveErrorView;
use crate::host::{max_calls, resolve, run, Call, Host};
use crate::platform::{spec_asset_name, supported, Architecture, Os};
use crate::release::{
    lemma_file_is_not_its_directory, spec_binary_path, spec_download_url, spec_node_download_url,
    spec_node_server_path, spec_node_version_dir, spec_version_dir, GITHUB_RELEASE_URL,
    NODE_SCRIPT_NAME, SERVER_VERSION, STDIO_FLAG,
};
use crate::resolver::Memo;
use crate::step::DownloadedFileType;

verus! {

/// The result of fetching a file of this release that is not at its place:
/// it is downloaded, and the native binary is then marked as executable.
pub open spec fn expected_fetch(host: Host, asset_name: Seq<char>, path: Seq<char>, native: bool) -> Option<
    ResolveErrorView,
> {
    match host.download(spec_download_url(asset_name)) {
        Err(message) => Some(ResolveErrorView::DownloadFailure { asset_name, message }),
        Ok(_) => if native {
            match host.make_executable(path) {
                Err(message) => Some(ResolveErrorView::ExecutableMarkFailure { message }),
                Ok(_) => None,
            }
        } else {
            None
        },
    }
}

/// The result that a resolution on `host` arrives at when the extension
/// remembers `memo`.
///
/// On Windows the editor's Node interpreter runs the server script; elsewhere
/// the native binary runs by itself. Either file is taken from where it was
/// remembered, if it is still there. Else the directory of this release is
/// made sure of, and the file is taken from its place there, after it has
/// been fetched if it is missing. Whatever fails on the way ends the
/// resolution.
pub open spec fn expected_outcome(memo: Memo, host: Host) -> Result<CommandView, ResolveErrorView> {
    if host.os == Os::Windows {
        match host.node {
            Err(message) => Err(ResolveErrorView::InterpreterUnavailable { message }),
            Ok(interpreter) => match memo.script {
                Some(path) if host.files.contains(path) => Ok(
                    CommandView::interpreted(interpreter, path),
                ),
                _ => match host.create_dir(spec_node_version_dir()) {
                    Err(message) => Err(ResolveErrorView::DirectoryCreationFailure { message }),
                    Ok(_) => {
                        let path = spec_node_server_path();
                        let command = CommandView::interpreted(interpreter, path);
                        if host.files.contains(path) {
                            Ok(command)
                        } else {
                            match expected_fetch(host, NODE_SCRIPT_NAME@, path, false) {
                                Some(error) => Err(error),
                                None => Ok(command),
                            }
                        }
                    },
                },
            },
        }
    } else {
        match memo.binary {
            Some(path) if host.files.contains(path) => Ok(CommandView::native(path)),
            _ => match spec_asset_name(host.os, host.arch) {
                None => Err(
                    ResolveErrorView::UnsupportedPlatform { os: host.os, arch: host.arch },
                ),
                Some(asset_name) => match host.create_dir(spec_version_dir()) {
                    Err(message) => Err(ResolveErrorView::DirectoryCreationFailure { message }),
                    Ok(_) => {
                        let path = spec_binary_path(asset_name);
                        if host.files.contains(path) {
                            Ok(CommandView::native(path))
                        } else {
                            match expected_fetch(host, asset_name, path, true) {
                                Some(error) => Err(error),
                                None => Ok(CommandView::native(path)),
                            }
                        }
                    },
                },
            },
        }
    }
}

/// The requests with which a resolution on another system than Windows
/// begins when the remembered binary is of no use: for the platform, for the
/// remembered binary if there is one, and for the platform again.
pub open spec fn calls_before_binary(memo: Memo) -> Seq<Call> {
    match memo.binary {
        Some(path) => seq![Call::CurrentPlatform, Call::Exists { path }, Call::CurrentPlatform],
        None => seq![Call::CurrentPlatform, Call::CurrentPlatform],
    }
}

/// The requests with which a resolution on Windows begins when the remembered
/// script is of no use: for the platform, for the interpreter, and for the
/// remembered script if there is one.
pub open spec fn calls_before_script(memo: Memo) -> Seq<Call> {
    match memo.script {
        Some(path) => seq![Call::CurrentPlatform, Call::NodeBinaryPath, Call::Exists { path }],
        None => seq![Call::CurrentPlatform, Call::NodeBinaryPath],
    }
}

/// Whether a request only reads: it creates, downloads and marks nothing.
pub open spec fn reads_only(call: Call) -> bool {
    call is CurrentPlatform || call is NodeBinaryPath || call is Exists
}

/// Whether a request has to do with the Node script only: it reads, or it
/// looks for, creates or downloads the script at its places, as `memo`
/// remembers it or as this release lays it out.
pub open spec fn serves_the_script(memo: Memo, call: Call) -> bool {
    match call {
        Call::CurrentPlatform => true,
        Call::NodeBinaryPath => true,
        Call::Exists { path } => memo.script == Some(path) || path == spec_node_server_path(),
        Call::CreateDir { path } => path == spec_node_version_dir(),
        Call::Download { url, path, file_type } => url == spec_node_download_url() && path
            == spec_node_server_path() && file_type == DownloadedFileType::Uncompressed,
        Call::MakeExecutable { .. } => false,
    }
}

/// Every resolution ends, after seven requests at most, and with the result
/// that `expected_outcome` describes.
pub proof fn lemma_resolution_outcome(memo: Memo, host: Host)
    ensures
        resolve(memo, host).outcome == Some(expected_outcome(memo, host)),
        resolve(memo, host).calls.len() <= max_calls(),
{
    reveal_with_fuel(run, 8);
    if let Some(asset_name) = spec_asset_name(host.os, host.arch) {
        lemma_file_is_not_its_directory(asset_name);
    }
    lemma_file_is_not_its_directory(NODE_SCRIPT_NAME@);
}

/// A resolution only remembers paths that it arrives at on its host, and
/// leaves the platform and the interpreter of the host as they are.
pub proof fn lemma_memo_stays_made_on(memo: Memo, host: Host)
    requires
        memo.made_on(host),
    ensures
        resolve(memo, host).memo.made_on(resolve(memo, host).host),
        resolve(memo, host).host.os == host.os,
        resolve(memo, host).host.arch == host.arch,
        resolve(memo, host).host.node == host.node,
{
    reveal_with_fuel(run, 8);
}

/// A resolution that fails remembers nothing new, so that the next one starts
/// from where this one started.
pub proof fn lemma_failure_remembers_nothing(memo: Memo, host: Host)
    requires
        resolve(memo, host).outcome matches Some(Err(_)),
    ensures
        resolve(memo, host).memo == memo,
{
    reveal_with_fuel(run, 8);
}

/// On a platform without a release asset the resolution fails with
/// `UnsupportedPlatform` and the offending pair, having asked for nothing but
/// the platform, and changes nothing.
pub proof fn lemma_unsupported_platform_fails(memo: Memo, host: Host)
    requires
        !supported(host.os, host.arch),
        memo.made_on(host),
    ensures
        resolve(memo, host).outcome == Some(
            Err::<CommandView, ResolveErrorView>(
                ResolveErrorView::UnsupportedPlatform { os: host.os, arch: host.arch },
            ),
        ),
        resolve(memo, host).calls == seq![Call::CurrentPlatform, Call::CurrentPlatform],
        resolve(memo, host).memo == memo,
        resolve(memo, host).host == host,
{
    reveal_with_fuel(run, 8);
    assert(resolve(memo, host).calls =~= seq![Call::CurrentPlatform, Call::CurrentPlatform]);
}

/// A remembered binary that is still on disk is the result, as it is: the
/// resolution asks for the platform and for that file, and for nothing else,
/// and changes nothing.
pub proof fn lemma_remembered_binary_is_reused(memo: Memo, host: Host, path: Seq<char>)
    requires
        host.os != Os::Windows,
        memo.binary == Some(path),
        host.files.contains(path),
    ensures
        resolve(memo, host).outcome == Some(
            Ok::<CommandView, ResolveErrorView>(CommandView::native(path)),
        ),
        resolve(memo, host).calls == seq![Call::CurrentPlatform, Call::Exists { path }],
        resolve(memo, host).memo == memo,
        resolve(memo, host).host == host,
{
    reveal_with_fuel(run, 8);
    assert(resolve(memo, host).calls =~= seq![Call::CurrentPlatform, Call::Exists { path }]);
}

/// A binary that is at its place in this release is never downloaded or
/// marked, though no resolution has remembered it. Where its directory can be
/// made sure of, the binary is the result and is remembered.
pub proof fn lemma_present_binary_is_not_fetched(memo: Memo, host: Host, asset_name: Seq<char>)
    requires
        host.os != Os::Windows,
        spec_asset_name(host.os, host.arch) == Some(asset_name),
        memo.binary matches Some(path) ==> !host.files.contains(path),
        host.files.contains(spec_binary_path(asset_name)),
    ensures
        forall|i: int|
            0 <= i < resolve(memo, host).calls.len() ==> !(#[trigger] resolve(memo, host).calls[i]
                is Download) && !(resolve(memo, host).calls[i] is MakeExecutable),
        host.create_dir(spec_version_dir()) is Ok ==> resolve(memo, host).outcome == Some(
            Ok::<CommandView, ResolveErrorView>(
                CommandView::native(spec_binary_path(asset_name)),
            ),
        ),
        host.create_dir(spec_version_dir()) is Ok ==> resolve(memo, host).calls
            == calls_before_binary(memo) + seq![
            Call::CreateDir { path: spec_version_dir() },
            Call::Exists { path: spec_binary_path(asset_name) },
        ],
        host.create_dir(spec_version_dir()) is Ok ==> resolve(memo, host).memo == (Memo {
            binary: Some(spec_binary_path(asset_name)),
            ..memo
        }),
        host.create_dir(spec_version_dir()) is Ok ==> resolve(memo, host).host.files
            == host.files.insert(spec_version_dir()),
{
    reveal_with_fuel(run, 8);
    lemma_file_is_not_its_directory(asset_name);
    if host.create_dir(spec_version_dir()) is Ok {
        assert(resolve(memo, host).calls =~= calls_before_binary(memo) + seq![
            Call::CreateDir { path: spec_version_dir() },
            Call::Exists { path: spec_binary_path(asset_name) },
        ]);
    }
}

/// A binary that is neither remembered nor at its place is fetched: its
/// directory is made sure of, it is downloaded once, as it is served, from
/// `<prefix>/<version>/<asset>`, it is marked as executable once, and then it
/// is remembered and is the result. This is stated of the resolutions in
/// which the editor can do all three.
pub proof fn lemma_missing_binary_is_fetched_once(memo: Memo, host: Host, asset_name: Seq<char>)
    requires
        host.os != Os::Windows,
        spec_asset_name(host.os, host.arch) == Some(asset_name),
        memo.binary matches Some(path) ==> !host.files.contains(path),
        !host.files.contains(spec_binary_path(asset_name)),
        host.create_dir(spec_version_dir()) is Ok,
        host.download(spec_download_url(asset_name)) is Ok,
        host.make_executable(spec_binary_path(asset_name)) is Ok,
    ensures
        resolve(memo, host).calls == calls_before_binary(memo) + seq![
            Call::CreateDir { path: spec_version_dir() },
            Call::Exists { path: spec_binary_path(asset_name) },
            Call::Download {
                url: GITHUB_RELEASE_URL@ + "/"@ + SERVER_VERSION@ + "/"@ + asset_name,
                path: spec_binary_path(asset_name),
                file_type: DownloadedFileType::Uncompressed,
            },
            Call::MakeExecutable { path: spec_binary_path(asset_name) },
        ],
        resolve(memo, host).outcome == Some(
            Ok::<CommandView, ResolveErrorView>(
                CommandView::native(spec_binary_path(asset_name)),
            ),
        ),
        resolve(memo, host).memo == (Memo { binary: Some(spec_binary_path(asset_name)), ..memo }),
        resolve(memo, host).host.files == host.files.insert(spec_version_dir()).insert(
            spec_binary_path(asset_name),
        ),
{
    reveal_with_fuel(run, 8);
    lemma_file_is_not_its_directory(asset_name);
    assert(resolve(memo, host).calls =~= calls_before_binary(memo) + seq![
        Call::CreateDir { path: spec_version_dir() },
        Call::Exists { path: spec_binary_path(asset_name) },
        Call::Download {
            url: spec_download_url(asset_name),
            path: spec_binary_path(asset_name),
            file_type: DownloadedFileType::Uncompressed,
        },
        Call::MakeExecutable { path: spec_binary_path(asset_name) },
    ]);
}

/// When the binary that a resolution has arrived at is deleted, the next
/// resolution downloads it again. This is stated of the hosts on which the
/// directory of this release can be made sure of.
pub proof fn lemma_deleted_binary_is_fetched_again(memo: Memo, host: Host, command: CommandView)
    requires
        host.os != Os::Windows,
        memo.made_on(host),
        resolve(memo, host).outcome == Some(Ok::<CommandView, ResolveErrorView>(command)),
        host.create_dir(spec_version_dir()) is Ok,
    ensures
        spec_asset_name(host.os, host.arch) matches Some(asset_name) && resolve(
            resolve(memo, host).memo,
            resolve(memo, host).host.without(command.command),
        ).calls.contains(
            Call::Download {
                url: spec_download_url(asset_name),
                path: command.command,
                file_type: DownloadedFileType::Uncompressed,
            },
        ),
{
    reveal_with_fuel(run, 8);
    let first = resolve(memo, host);
    let second = resolve(first.memo, first.host.without(command.command));
    let asset_name = spec_asset_name(host.os, host.arch)->0;
    lemma_file_is_not_its_directory(asset_name);
    assert(first.memo.binary == Some(command.command));
    assert(second.calls[5] == Call::Download {
        url: spec_download_url(asset_name),
        path: command.command,
        file_type: DownloadedFileType::Uncompressed,
    });
}

/// A resolution that follows a successful one, on the host as that one left
/// it, gives the same command, only reads, and changes nothing.
pub proof fn lemma_second_resolution_changes_nothing(memo: Memo, host: Host, command: CommandView)
    requires
        resolve(memo, host).outcome == Some(Ok::<CommandView, ResolveErrorView>(command)),
    ensures
        resolve(resolve(memo, host).memo, resolve(memo, host).host).outcome == Some(
            Ok::<CommandView, ResolveErrorView>(command),
        ),
        resolve(resolve(memo, host).memo, resolve(memo, host).host).memo == resolve(
            memo,
            host,
        ).memo,
        resolve(resolve(memo, host).memo, resolve(memo, host).host).host == resolve(
            memo,
            host,
        ).host,
        forall|i: int|
            0 <= i < resolve(resolve(memo, host).memo, resolve(memo, host).host).calls.len()
                ==> reads_only(
                #[trigger] resolve(resolve(memo, host).memo, resolve(memo, host).host).calls[i],
            ),
{
    reveal_with_fuel(run, 8);
    if let Some(asset_name) = spec_asset_name(host.os, host.arch) {
        lemma_file_is_not_its_directory(asset_name);
    }
    lemma_file_is_not_its_directory(NODE_SCRIPT_NAME@);
}

/// On Windows the native binary plays no part: nothing is marked as
/// executable, nothing is looked for, created or downloaded but the Node
/// script at its places, the remembered binary stays as it is, and a command,
/// if there is one, runs the editor's interpreter on the script.
pub proof fn lemma_windows_runs_the_script(memo: Memo, host: Host)
    requires
        host.os == Os::Windows,
    ensures
        forall|i: int|
            0 <= i < resolve(memo, host).calls.len() ==> serves_the_script(
                memo,
                #[trigger] resolve(memo, host).calls[i],
            ),
        resolve(memo, host).memo.binary == memo.binary,
        resolve(memo, host).outcome matches Some(Ok(command)) ==> host.node == Ok::<
            Seq<char>,
            Seq<char>,
        >(command.command) && command.args.len() == 2 && (command.args[0]
            == spec_node_server_path() || memo.script == Some(command.args[0])) && command.args[1]
            == STDIO_FLAG@,
{
    reveal_with_fuel(run, 8);
}

/// A script that is neither remembered nor at its place is fetched on
/// Windows: its directory is made sure of, it is downloaded once, as it is
/// served, and then it is remembered and is run by the interpreter. This is
/// stated of the resolutions in which the editor has an interpreter and can
/// do both.
pub proof fn lemma_missing_script_is_fetched_once(memo: Memo, host: Host, interpreter: Seq<char>)
    requires
        host.os == Os::Windows,
        host.node == Ok::<Seq<char>, Seq<char>>(interpreter),
        memo.script matches Some(path) ==> !host.files.contains(path),
        !host.files.contains(spec_node_server_path()),
        host.create_dir(spec_node_version_dir()) is Ok,
        host.download(spec_node_download_url()) is Ok,
    ensures
        resolve(memo, host).calls == calls_before_script(memo) + seq![
            Call::CreateDir { path: spec_node_version_dir() },
            Call::Exists { path: spec_node_server_path() },
            Call::Download {
                url: GITHUB_RELEASE_URL@ + "/"@ + SERVER_VERSION@ + "/"@ + NODE_SCRIPT_NAME@,
                path: spec_node_server_path(),
                file_type: DownloadedFileType::Uncompressed,
            },
        ],
        resolve(memo, host).outcome == Some(
            Ok::<CommandView, ResolveErrorView>(
                CommandView::interpreted(interpreter, spec_node_server_path()),
            ),
        ),
        resolve(memo, host).memo == (Memo { script: Some(spec_node_server_path()), ..memo }),
        resolve(memo, host).host.files == host.files.insert(spec_node_version_dir()).insert(
            spec_node_server_path(),
        ),
{
    reveal_with_fuel(run, 8);
    lemma_file_is_not_its_directory(NODE_SCRIPT_NAME@);
    assert(resolve(memo, host).calls =~= calls_before_script(memo) + seq![
        Call::CreateDir { path: spec_node_version_dir() },
        Call::Exists { path: spec_node_server_path() },
        Call::Download {
            url: spec_node_download_url(),
            path: spec_node_server_path(),
            file_type: DownloadedFileType::Uncompressed,
        },
    ]);
}

/// When the script that a resolution on Windows has arrived at is deleted,
/// the next resolution downloads it again. This is stated of the hosts on
/// which the directory of this release can be made sure of.
pub proof fn lemma_deleted_script_is_fetched_again(memo: Memo, host: Host, command: CommandView)
    requires
        host.os == Os::Windows,
        memo.made_on(host),
        resolve(memo, host).outcome == Some(Ok::<CommandView, ResolveErrorView>(command)),
        host.create_dir(spec_node_version_dir()) is Ok,
    ensures
        command.args.len() == 2,
        resolve(
            resolve(memo, host).memo,
            resolve(memo, host).host.without(command.args[0]),
        ).calls.contains(
            Call::Download {
                url: spec_node_download_url(),
                path: command.args[0],
                file_type: DownloadedFileType::Uncompressed,
            },
        ),
{
    reveal_with_fuel(run, 8);
    let first = resolve(memo, host);
    let second = resolve(first.memo, first.host.without(command.args[0]));
    lemma_file_is_not_its_directory(NODE_SCRIPT_NAME@);
    assert(first.memo.script == Some(command.args[0]));
    assert(second.calls[5] == Call::Download {
        url: spec_node_download_url(),
        path: command.args[0],
        file_type: DownloadedFileType::Uncompressed,
    });
}

/// The Node script is none of the native assets: it has another name, another
/// address and another place on disk than the asset of any platform.
pub proof fn lemma_script_is_no_native_asset(os: Os, arch: Architecture, asset_name: Seq<char>)
    requires
        spec_asset_name(os, arch) == Some(asset_name),
    ensures
        asset_name != NODE_SCRIPT_NAME@,
        spec_download_url(asset_name) != spec_node_download_url(),
        spec_binary_path(asset_name) != spec_node_server_path(),
{
    reveal_strlit("sight-darwin-arm64");
    reveal_strlit("sight-linux-arm64");
    reveal_strlit("sight-linux-x64");
    reveal_strlit("sight-windows-x64.exe");
    reveal_strlit("sight-server.js");
    assert(asset_name[6] != NODE_SCRIPT_NAME@[6]);

    let prefix = GITHUB_RELEASE_URL@ + "/"@ + SERVER_VERSION@ + "/"@;
    let at = (prefix.len() + 6) as int;
    assert(spec_download_url(asset_name) == prefix + asset_name);
    assert(spec_node_download_url() == prefix + NODE_SCRIPT_NAME@);
    assert((prefix + asset_name)[at] == asset_name[6]);
    assert((prefix + NODE_SCRIPT_NAME@)[at] == NODE_SCRIPT_NAME@[6]);

    reveal_strlit("sight-");
    reveal_strlit("sight-node-");
    reveal_strlit("v0.1.16");
    assert(spec_binary_path(asset_name)[6] == 'v');
    assert(spec_node_server_path()[6] == 'n');
}

} // verus!
