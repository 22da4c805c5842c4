//! What the resolver asks of the editor, and what it keeps in mind while it
//! waits for the answer.

use vstd::prelude::*;
use vstd::string::StringExecFns;

use crate::command::{Command, CommandView};
use crate::error::{ResolveError, ResolveErrorView};
use crate::release::{
    binary_path, download_url, node_download_url, node_server_path, node_version_dir,
    spec_binary_path, spec_download_url, spec_node_download_url, spec_node_server_path,
    spec_node_version_dir, spec_version_dir, version_dir, NODE_SCRIPT_NAME,
};

verus! {

/// How the editor treats a file that it has downloaded.
#[derive(Clone, Copy, Debug, PartialEq, Eq, Structural)]
pub enum DownloadedFileType {
    Gzip,
    GzipTar,
    Zip,
    Uncompressed,
}

/// Why the platform is asked for.
#[derive(Clone, Copy, Debug, PartialEq, Eq, Structural)]
pub enum PlatformUse {
    /// To choose between the native binary and the Node script.
    Launch,
    /// To choose the release asset of the native binary.
    Binary,
}

/// The file of this release that a resolution is after.
#[derive(Clone, Debug, PartialEq, Eq)]
pub enum Artifact {
    /// The native binary `asset_name`, which runs by itself.
    Binary { asset_name: String },
    /// The Node script, which `interpreter` runs.
    Script { interpreter: String },
}

/// An `Artifact` with its texts as sequences of characters.
pub enum ArtifactView {
    Binary { asset_name: Seq<char> },
    Script { interpreter: Seq<char> },
}

impl View for Artifact {
    type V = ArtifactView;

    open spec fn view(&self) -> ArtifactView {
        match *self {
            Artifact::Binary { asset_name } => ArtifactView::Binary { asset_name: asset_name@ },
            Artifact::Script { interpreter } => ArtifactView::Script { interpreter: interpreter@ },
        }
    }
}

impl ArtifactView {
    /// The name of the release asset.
    pub open spec fn asset_name(self) -> Seq<char> {
        match self {
            ArtifactView::Binary { asset_name } => asset_name,
            ArtifactView::Script { .. } => NODE_SCRIPT_NAME@,
        }
    }

    /// The directory that holds the file.
    pub open spec fn dir(self) -> Seq<char> {
        match self {
            ArtifactView::Binary { .. } => spec_version_dir(),
            ArtifactView::Script { .. } => spec_node_version_dir(),
        }
    }

    /// The path of the file.
    pub open spec fn path(self) -> Seq<char> {
        match self {
            ArtifactView::Binary { asset_name } => spec_binary_path(asset_name),
            ArtifactView::Script { .. } => spec_node_server_path(),
        }
    }

    /// The address that the file is downloaded from.
    pub open spec fn url(self) -> Seq<char> {
        match self {
            ArtifactView::Binary { asset_name } => spec_download_url(asset_name),
            ArtifactView::Script { .. } => spec_node_download_url(),
        }
    }

    /// The command that starts the server from the file once it is at `path`.
    pub open spec fn command(self, path: Seq<char>) -> CommandView {
        match self {
            ArtifactView::Binary { .. } => CommandView::native(path),
            ArtifactView::Script { interpreter } => CommandView::interpreted(interpreter, path),
        }
    }
}

impl Artifact {
    /// The name of the release asset.
    pub fn asset_name(&self) -> (name: String)
        ensures
            name@ == self@.asset_name(),
    {
        match self {
            Artifact::Binary { asset_name } => asset_name.clone(),
            Artifact::Script { .. } => String::from_str(NODE_SCRIPT_NAME),
        }
    }

    /// The directory that holds the file.
    pub fn dir(&self) -> (dir: String)
        ensures
            dir@ == self@.dir(),
    {
        match self {
            Artifact::Binary { .. } => version_dir(),
            Artifact::Script { .. } => node_version_dir(),
        }
    }

    /// The path of the file.
    pub fn path(&self) -> (path: String)
        ensures
            path@ == self@.path(),
    {
        match self {
            Artifact::Binary { asset_name } => binary_path(asset_name.as_str()),
            Artifact::Script { .. } => node_server_path(),
        }
    }

    /// The address that the file is downloaded from.
    pub fn url(&self) -> (url: String)
        ensures
            url@ == self@.url(),
    {
        match self {
            Artifact::Binary { asset_name } => download_url(asset_name.as_str()),
            Artifact::Script { .. } => node_download_url(),
        }
    }

    /// The command that starts the server from the file once it is at `path`.
    pub fn command(self, path: String) -> (command: Command)
        ensures
            command@ == self@.command(path@),
    {
        match self {
            Artifact::Binary { .. } => Command::native(path),
            Artifact::Script { interpreter } => Command::interpreted(interpreter, path),
        }
    }
}

/// Which file is looked for on disk.
#[derive(Clone, Debug, PartialEq, Eq)]
pub enum Probe {
    /// The native binary, where an earlier resolution left it.
    RememberedBinary,
    /// The Node script, where an earlier resolution left it.
    RememberedScript { interpreter: String },
    /// A file at its place in this release.
    Released { artifact: Artifact },
}

/// A `Probe` with its texts as sequences of characters.
pub enum ProbeView {
    RememberedBinary,
    RememberedScript { interpreter: Seq<char> },
    Released { artifact: ArtifactView },
}

impl View for Probe {
    type V = ProbeView;

    open spec fn view(&self) -> ProbeView {
        match *self {
            Probe::RememberedBinary => ProbeView::RememberedBinary,
            Probe::RememberedScript { interpreter } => ProbeView::RememberedScript {
                interpreter: interpreter@,
            },
            Probe::Released { artifact } => ProbeView::Released { artifact: artifact@ },
        }
    }
}

/// The next thing to happen in a resolution: a request to the editor,
/// together with what the resolver needs to take up the answer, or the end.
#[derive(Debug, PartialEq, Eq)]
pub enum Step {
    /// Ask for the operating system and the architecture.
    CurrentPlatform { purpose: PlatformUse },
    /// Ask for the path of the editor's Node interpreter.
    NodeBinaryPath,
    /// Ask whether a file exists at `path`.
    Exists { path: String, probe: Probe },
    /// Ask for the directory `path` to be created, with its parents.
    CreateDir { path: String, artifact: Artifact },
    /// Ask for `url` to be downloaded to `path`.
    Download { url: String, path: String, file_type: DownloadedFileType, artifact: Artifact },
    /// Ask for the file at `path` to be marked as executable.
    MakeExecutable { path: String, asset_name: String },
    /// Nothing is left to ask.
    Done { outcome: Result<Command, ResolveError> },
}

/// A `Step` with its texts as sequences of characters.
pub enum StepView {
    CurrentPlatform { purpose: PlatformUse },
    NodeBinaryPath,
    Exists { path: Seq<char>, probe: ProbeView },
    CreateDir { path: Seq<char>, artifact: ArtifactView },
    Download { url: Seq<char>, path: Seq<char>, file_type: DownloadedFileType, artifact: ArtifactView },
    MakeExecutable { path: Seq<char>, asset_name: Seq<char> },
    Done { outcome: Result<CommandView, ResolveErrorView> },
}

impl View for Step {
    type V = StepView;

    open spec fn view(&self) -> StepView {
        match *self {
            Step::CurrentPlatform { purpose } => StepView::CurrentPlatform { purpose },
            Step::NodeBinaryPath => StepView::NodeBinaryPath,
            Step::Exists { path, probe } => StepView::Exists { path: path@, probe: probe@ },
            Step::CreateDir { path, artifact } => StepView::CreateDir {
                path: path@,
                artifact: artifact@,
            },
            Step::Download { url, path, file_type, artifact } => StepView::Download {
                url: url@,
                path: path@,
                file_type,
                artifact: artifact@,
            },
            Step::MakeExecutable { path, asset_name } => StepView::MakeExecutable {
                path: path@,
                asset_name: asset_name@,
            },
            Step::Done { outcome } => StepView::Done {
                outcome: match outcome {
                    Ok(command) => Ok(command@),
                    Err(error) => Err(error@),
                },
            },
        }
    }
}

} // verus!
