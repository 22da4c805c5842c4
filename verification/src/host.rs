//! A model of the editor as the resolver sees it, and of a whole resolution
//! against it: the resolver asks, the editor answers, until nothing is left to
//! ask.

use vstd::prelude::*;

use crate::command::CommandView;
use crate::error::ResolveErrorView;
use crate::platform::{spec_asset_name, Architecture, Os};
use crate::release::{spec_binary_path, spec_node_server_path};
use crate::resolver::Memo;
use crate::step::{DownloadedFileType, StepView};

verus! {

/// The editor and the machine under it, as far as a resolution can tell.
pub struct Host {
    /// The platform that the editor reports.
    pub os: Os,
    pub arch: Architecture,
    /// The path of the editor's Node interpreter, or why there is none.
    pub node: Result<Seq<char>, Seq<char>>,
    /// The paths at which something exists.
    pub files: Set<Seq<char>>,
    /// The directories that cannot be created, each with the complaint.
    pub dir_failures: Map<Seq<char>, Seq<char>>,
    /// The addresses that cannot be downloaded, each with the complaint.
    pub download_failures: Map<Seq<char>, Seq<char>>,
    /// The paths that cannot be marked as executable, each with the complaint.
    pub mark_failures: Map<Seq<char>, Seq<char>>,
}

/// A request to the editor.
pub enum Call {
    CurrentPlatform,
    NodeBinaryPath,
    Exists { path: Seq<char> },
    CreateDir { path: Seq<char> },
    Download { url: Seq<char>, path: Seq<char>, file_type: DownloadedFileType },
    MakeExecutable { path: Seq<char> },
}

impl StepView {
    /// The request that the step makes, if it makes one.
    pub open spec fn call(self) -> Option<Call> {
        match self {
            StepView::CurrentPlatform { .. } => Some(Call::CurrentPlatform),
            StepView::NodeBinaryPath => Some(Call::NodeBinaryPath),
            StepView::Exists { path, .. } => Some(Call::Exists { path }),
            StepView::CreateDir { path, .. } => Some(Call::CreateDir { path }),
            StepView::Download { url, path, file_type, .. } => Some(
                Call::Download { url, path, file_type },
            ),
            StepView::MakeExecutable { path, .. } => Some(Call::MakeExecutable { path }),
            StepView::Done { .. } => None,
        }
    }
}

/// The answer that stands for `failures` having nothing at `key`, or the
/// complaint found there.
pub open spec fn unless_failing(failures: Map<Seq<char>, Seq<char>>, key: Seq<char>) -> Result<
    (),
    Seq<char>,
> {
    if failures.contains_key(key) {
        Err(failures[key])
    } else {
        Ok(())
    }
}

impl Host {
    /// The answer to a request for the directory `path`.
    pub open spec fn create_dir(self, path: Seq<char>) -> Result<(), Seq<char>> {
        unless_failing(self.dir_failures, path)
    }

    /// The answer to a request for the download of `url`.
    pub open spec fn download(self, url: Seq<char>) -> Result<(), Seq<char>> {
        unless_failing(self.download_failures, url)
    }

    /// The answer to a request to mark `path` as executable.
    pub open spec fn make_executable(self, path: Seq<char>) -> Result<(), Seq<char>> {
        unless_failing(self.mark_failures, path)
    }

    /// The host once it has served `call`: a directory that could be created
    /// and a file that could be downloaded exist from then on, and nothing
    /// else changes. A download that fails leaves no file.
    pub open spec fn after(self, call: Call) -> Host {
        match call {
            Call::CreateDir { path } => if self.create_dir(path) is Ok {
                Host { files: self.files.insert(path), ..self }
            } else {
                self
            },
            Call::Download { url, path, .. } => if self.download(url) is Ok {
                Host { files: self.files.insert(path), ..self }
            } else {
                self
            },
            _ => self,
        }
    }

    /// The host after the file at `path` has been deleted.
    pub open spec fn without(self, path: Seq<char>) -> Host {
        Host { files: self.files.remove(path), ..self }
    }
}

impl Memo {
    /// Whether every remembered path is the one that a resolution on `host`
    /// arrives at. A resolution only ever remembers such paths.
    pub open spec fn made_on(self, host: Host) -> bool {
        &&& self.binary matches Some(path) ==> spec_asset_name(host.os, host.arch) matches Some(
            asset_name,
        ) && path == spec_binary_path(asset_name)
        &&& self.script matches Some(path) ==> path == spec_node_server_path()
    }

    /// The state and the step once `host` has answered the request of `step`.
    pub open spec fn round(self, step: StepView, host: Host) -> (Memo, StepView) {
        match step {
            StepView::CurrentPlatform { purpose } => (
                self,
                self.on_current_platform(purpose, host.os, host.arch),
            ),
            StepView::NodeBinaryPath => (self, self.on_node_binary_path(host.node)),
            StepView::Exists { path, probe } => self.on_exists(probe, host.files.contains(path)),
            StepView::CreateDir { path, artifact } => (
                self,
                Memo::on_create_dir(artifact, host.create_dir(path)),
            ),
            StepView::Download { url, artifact, .. } => self.on_download(
                artifact,
                host.download(url),
            ),
            StepView::MakeExecutable { path, asset_name } => self.on_make_executable(
                asset_name,
                host.make_executable(path),
            ),
            StepView::Done { .. } => (self, step),
        }
    }
}

/// What a resolution did and how it ended.
pub struct Run {
    /// The requests made, in their order.
    pub calls: Seq<Call>,
    /// The host afterwards.
    pub host: Host,
    /// What the extension remembers afterwards.
    pub memo: Memo,
    /// The result, unless the rounds ran out first.
    pub outcome: Option<Result<CommandView, ResolveErrorView>>,
}

/// The resolution that goes on from `step`, for at most `rounds` requests.
pub open spec fn run(memo: Memo, step: StepView, host: Host, rounds: nat) -> Run
    decreases rounds,
{
    match step {
        StepView::Done { outcome } => Run { calls: seq![], host, memo, outcome: Some(outcome) },
        _ => if rounds == 0 {
            Run { calls: seq![], host, memo, outcome: None }
        } else {
            let call = step.call()->0;
            let next = memo.round(step, host);
            let rest = run(next.0, next.1, host.after(call), (rounds - 1) as nat);
            Run { calls: seq![call] + rest.calls, ..rest }
        },
    }
}

/// The largest number of requests that a resolution makes.
pub open spec fn max_calls() -> nat {
    7
}

/// A whole resolution of the command that starts the server.
pub open spec fn resolve(memo: Memo, host: Host) -> Run {
    run(memo, Memo::language_server_command(), host, max_calls())
}

} // verus!
