//! The resolver: what it remembers between resolutions, and how it goes from
//! one answer of the editor to the next request.
//!
//! A resolution begins with `SightExtension::language_server_command`. Each
//! `Step` that is not `Done` names a request; the answer goes to the `on_`
//! method of that request, together with what the step carried, and gives the
//! next step.

use vstd::prelude::*;
use vstd::string::StringExecFns;

use crate::command::{Command, CommandView};
use crate::error::{ResolveError, ResolveErrorView};
use crate::platform::{asset_name, spec_asset_name, Architecture, Os};
use crate::release::{binary_path, spec_binary_path};
use crate::step::{
    Artifact, ArtifactView, DownloadedFileType, PlatformUse, Probe, ProbeView, Step, StepView,
};

verus! {

/// The extension's state: the paths at which earlier resolutions left the
/// native binary and the Node script.
#[derive(Clone, Debug, PartialEq, Eq)]
pub struct SightExtension {
    cached_binary_path: Option<String>,
    cached_node_package_path: Option<String>,
}

/// What a `SightExtension` remembers, as sequences of characters.
pub struct Memo {
    pub binary: Option<Seq<char>>,
    pub script: Option<Seq<char>>,
}

impl View for SightExtension {
    type V = Memo;

    closed spec fn view(&self) -> Memo {
        Memo {
            binary: self.cached_binary_path.deep_view(),
            script: self.cached_node_package_path.deep_view(),
        }
    }
}

/// An answer of the editor that is a text or a complaint, as sequences of
/// characters.
pub open spec fn text_answer(answer: Result<String, String>) -> Result<Seq<char>, Seq<char>> {
    match answer {
        Ok(text) => Ok(text@),
        Err(message) => Err(message@),
    }
}

/// An answer of the editor that is a success or a complaint, as a sequence of
/// characters.
pub open spec fn unit_answer(answer: Result<(), String>) -> Result<(), Seq<char>> {
    match answer {
        Ok(_) => Ok(()),
        Err(message) => Err(message@),
    }
}

impl Memo {
    /// The state in which nothing is remembered.
    pub open spec fn empty() -> Memo {
        Memo { binary: None, script: None }
    }

    /// The state in which the path of `artifact` is remembered as well.
    pub open spec fn remember(self, artifact: ArtifactView) -> Memo {
        match artifact {
            ArtifactView::Binary { .. } => Memo { binary: Some(artifact.path()), ..self },
            ArtifactView::Script { .. } => Memo { script: Some(artifact.path()), ..self },
        }
    }

    /// The step with which a file of this release is resolved: its directory
    /// is made sure of first.
    pub open spec fn resolve_released(artifact: ArtifactView) -> StepView {
        StepView::CreateDir { path: artifact.dir(), artifact }
    }

    /// The first step of a resolution: the platform decides how the server is
    /// started.
    pub open spec fn language_server_command() -> StepView {
        StepView::CurrentPlatform { purpose: PlatformUse::Launch }
    }

    /// The first step towards the native binary: a remembered path is looked
    /// for first, and without one the platform is asked for.
    pub open spec fn get_server_binary_path(self) -> StepView {
        match self.binary {
            Some(path) => StepView::Exists { path, probe: ProbeView::RememberedBinary },
            None => StepView::CurrentPlatform { purpose: PlatformUse::Binary },
        }
    }

    /// The first step towards the Node script: a remembered path is looked for
    /// first, and without one the script of this release is resolved.
    pub open spec fn get_node_server_path(self, interpreter: Seq<char>) -> StepView {
        match self.script {
            Some(path) => StepView::Exists {
                path,
                probe: ProbeView::RememberedScript { interpreter },
            },
            None => Memo::resolve_released(ArtifactView::Script { interpreter }),
        }
    }

    /// The step after the editor has named the platform.
    ///
    /// At the start Windows leads to the Node script and every other system
    /// to the native binary. For the binary, a platform with a release asset
    /// leads to that asset, and one without ends the resolution.
    pub open spec fn on_current_platform(
        self,
        purpose: PlatformUse,
        os: Os,
        arch: Architecture,
    ) -> StepView {
        match purpose {
            PlatformUse::Launch => if os == Os::Windows {
                StepView::NodeBinaryPath
            } else {
                self.get_server_binary_path()
            },
            PlatformUse::Binary => match spec_asset_name(os, arch) {
                Some(asset_name) => Memo::resolve_released(ArtifactView::Binary { asset_name }),
                None => StepView::Done {
                    outcome: Err(ResolveErrorView::UnsupportedPlatform { os, arch }),
                },
            },
        }
    }

    /// The step after the editor has looked up its Node interpreter.
    pub open spec fn on_node_binary_path(self, found: Result<Seq<char>, Seq<char>>) -> StepView {
        match found {
            Ok(interpreter) => self.get_node_server_path(interpreter),
            Err(message) => StepView::Done {
                outcome: Err(ResolveErrorView::InterpreterUnavailable { message }),
            },
        }
    }

    /// The step after the editor has tried to create the directory of
    /// `artifact`: the file is looked for at its place, or the resolution
    /// ends with the complaint.
    pub open spec fn on_create_dir(artifact: ArtifactView, created: Result<(), Seq<char>>) -> StepView {
        match created {
            Ok(_) => StepView::Exists { path: artifact.path(), probe: ProbeView::Released { artifact } },
            Err(message) => StepView::Done {
                outcome: Err(ResolveErrorView::DirectoryCreationFailure { message }),
            },
        }
    }

    /// The state and the step after the editor has looked for a file.
    ///
    /// A remembered path that is still there is the result, as it is; one
    /// that is gone is passed over, and the file of this release is resolved.
    /// A file that is at its place in this release is remembered and is the
    /// result; one that is missing is downloaded, as it is served.
    pub open spec fn on_exists(self, probe: ProbeView, exists: bool) -> (Memo, StepView) {
        match probe {
            ProbeView::RememberedBinary => match self.binary {
                Some(path) if exists => (
                    self,
                    StepView::Done { outcome: Ok(CommandView::native(path)) },
                ),
                _ => (self, StepView::CurrentPlatform { purpose: PlatformUse::Binary }),
            },
            ProbeView::RememberedScript { interpreter } => match self.script {
                Some(path) if exists => (
                    self,
                    StepView::Done { outcome: Ok(CommandView::interpreted(interpreter, path)) },
                ),
                _ => (self, Memo::resolve_released(ArtifactView::Script { interpreter })),
            },
            ProbeView::Released { artifact } => if exists {
                (
                    self.remember(artifact),
                    StepView::Done { outcome: Ok(artifact.command(artifact.path())) },
                )
            } else {
                (
                    self,
                    StepView::Download {
                        url: artifact.url(),
                        path: artifact.path(),
                        file_type: DownloadedFileType::Uncompressed,
                        artifact,
                    },
                )
            },
        }
    }

    /// The state and the step after the editor has tried to download
    /// `artifact`. The native binary still has to be marked as executable;
    /// the script is remembered and is the result. A failure ends the
    /// resolution with the asset's name and the complaint.
    pub open spec fn on_download(self, artifact: ArtifactView, downloaded: Result<(), Seq<char>>) -> (
        Memo,
        StepView,
    ) {
        match downloaded {
            Ok(_) => match artifact {
                ArtifactView::Binary { asset_name } => (
                    self,
                    StepView::MakeExecutable { path: artifact.path(), asset_name },
                ),
                ArtifactView::Script { .. } => (
                    self.remember(artifact),
                    StepView::Done { outcome: Ok(artifact.command(artifact.path())) },
                ),
            },
            Err(message) => (
                self,
                StepView::Done {
                    outcome: Err(
                        ResolveErrorView::DownloadFailure {
                            asset_name: artifact.asset_name(),
                            message,
                        },
                    ),
                },
            ),
        }
    }

    /// The state and the step after the editor has tried to mark the native
    /// binary `asset_name` as executable: the binary is remembered and is the
    /// result, or the resolution ends with the complaint.
    pub open spec fn on_make_executable(self, asset_name: Seq<char>, marked: Result<(), Seq<char>>) -> (
        Memo,
        StepView,
    ) {
        match marked {
            Ok(_) => (
                Memo { binary: Some(spec_binary_path(asset_name)), ..self },
                StepView::Done { outcome: Ok(CommandView::native(spec_binary_path(asset_name))) },
            ),
            Err(message) => (
                self,
                StepView::Done { outcome: Err(ResolveErrorView::ExecutableMarkFailure { message }) },
            ),
        }
    }
}

impl SightExtension {
    /// An extension that remembers nothing.
    pub fn new() -> (extension: SightExtension)
        ensures
            extension@ == Memo::empty(),
    {
        SightExtension { cached_binary_path: None, cached_node_package_path: None }
    }

    /// The remembered path of the native binary.
    pub fn cached_binary_path(&self) -> (path: Option<String>)
        ensures
            path.deep_view() == self@.binary,
    {
        self.cached_binary_path.clone()
    }

    /// The remembered path of the Node script.
    pub fn cached_node_package_path(&self) -> (path: Option<String>)
        ensures
            path.deep_view() == self@.script,
    {
        self.cached_node_package_path.clone()
    }

    /// Remembers where `artifact` is.
    fn remember(&mut self, artifact: &Artifact)
        ensures
            final(self)@ == old(self)@.remember(artifact@),
    {
        match artifact {
            Artifact::Binary { .. } => {
                self.cached_binary_path = Some(artifact.path());
            },
            Artifact::Script { .. } => {
                self.cached_node_package_path = Some(artifact.path());
            },
        }
    }

    /// Begins the resolution of a file of this release.
    fn resolve_released(artifact: Artifact) -> (step: Step)
        ensures
            step@ == Memo::resolve_released(artifact@),
    {
        Step::CreateDir { path: artifact.dir(), artifact }
    }

    /// Begins the resolution of the command that starts the server.
    pub fn language_server_command(&self) -> (step: Step)
        ensures
            step@ == Memo::language_server_command(),
    {
        Step::CurrentPlatform { purpose: PlatformUse::Launch }
    }

    /// Begins the resolution of the native binary.
    pub fn get_server_binary_path(&self) -> (step: Step)
        ensures
            step@ == self@.get_server_binary_path(),
    {
        match &self.cached_binary_path {
            Some(path) => Step::Exists { path: path.clone(), probe: Probe::RememberedBinary },
            None => Step::CurrentPlatform { purpose: PlatformUse::Binary },
        }
    }

    /// Begins the resolution of the Node script that `interpreter` will run.
    pub fn get_node_server_path(&self, interpreter: String) -> (step: Step)
        ensures
            step@ == self@.get_node_server_path(interpreter@),
    {
        match &self.cached_node_package_path {
            Some(path) => Step::Exists {
                path: path.clone(),
                probe: Probe::RememberedScript { interpreter },
            },
            None => Self::resolve_released(Artifact::Script { interpreter }),
        }
    }

    /// Takes up the editor's answer to `Step::CurrentPlatform`.
    pub fn on_current_platform(&self, purpose: PlatformUse, os: Os, arch: Architecture) -> (step:
        Step)
        ensures
            step@ == self@.on_current_platform(purpose, os, arch),
    {
        match purpose {
            PlatformUse::Launch => match os {
                Os::Windows => Step::NodeBinaryPath,
                _ => self.get_server_binary_path(),
            },
            PlatformUse::Binary => match asset_name(os, arch) {
                Ok(name) => Self::resolve_released(
                    Artifact::Binary { asset_name: String::from_str(name) },
                ),
                Err(error) => Step::Done { outcome: Err(error) },
            },
        }
    }

    /// Takes up the editor's answer to `Step::NodeBinaryPath`.
    pub fn on_node_binary_path(&self, found: Result<String, String>) -> (step: Step)
        ensures
            step@ == self@.on_node_binary_path(text_answer(found)),
    {
        match found {
            Ok(interpreter) => self.get_node_server_path(interpreter),
            Err(message) => Step::Done {
                outcome: Err(ResolveError::InterpreterUnavailable { message }),
            },
        }
    }

    /// Takes up the editor's answer to `Step::CreateDir`.
    pub fn on_create_dir(artifact: Artifact, created: Result<(), String>) -> (step: Step)
        ensures
            step@ == Memo::on_create_dir(artifact@, unit_answer(created)),
    {
        match created {
            Ok(_) => Step::Exists { path: artifact.path(), probe: Probe::Released { artifact } },
            Err(message) => Step::Done {
                outcome: Err(ResolveError::DirectoryCreationFailure { message }),
            },
        }
    }

    /// Takes up the editor's answer to `Step::Exists`.
    pub fn on_exists(&mut self, probe: Probe, exists: bool) -> (step: Step)
        ensures
            (final(self)@, step@) == old(self)@.on_exists(probe@, exists),
    {
        match probe {
            Probe::RememberedBinary => {
                if exists {
                    if let Some(path) = &self.cached_binary_path {
                        return Step::Done { outcome: Ok(Command::native(path.clone())) };
                    }
                }
                Step::CurrentPlatform { purpose: PlatformUse::Binary }
            },
            Probe::RememberedScript { interpreter } => {
                if exists {
                    if let Some(path) = &self.cached_node_package_path {
                        return Step::Done {
                            outcome: Ok(Command::interpreted(interpreter, path.clone())),
                        };
                    }
                }
                Self::resolve_released(Artifact::Script { interpreter })
            },
            Probe::Released { artifact } => {
                if exists {
                    self.remember(&artifact);
                    let path = artifact.path();
                    Step::Done { outcome: Ok(artifact.command(path)) }
                } else {
                    Step::Download {
                        url: artifact.url(),
                        path: artifact.path(),
                        file_type: DownloadedFileType::Uncompressed,
                        artifact,
                    }
                }
            },
        }
    }

    /// Takes up the editor's answer to `Step::Download`.
    pub fn on_download(&mut self, artifact: Artifact, downloaded: Result<(), String>) -> (step: Step)
        ensures
            (final(self)@, step@) == old(self)@.on_download(artifact@, unit_answer(downloaded)),
    {
        match downloaded {
            Ok(_) => match artifact {
                Artifact::Binary { asset_name } => Step::MakeExecutable {
                    path: binary_path(asset_name.as_str()),
                    asset_name,
                },
                Artifact::Script { .. } => {
                    self.remember(&artifact);
                    let path = artifact.path();
                    Step::Done { outcome: Ok(artifact.command(path)) }
                },
            },
            Err(message) => Step::Done {
                outcome: Err(
                    ResolveError::DownloadFailure { asset_name: artifact.asset_name(), message },
                ),
            },
        }
    }

    /// Takes up the editor's answer to `Step::MakeExecutable`.
    pub fn on_make_executable(&mut self, asset_name: String, marked: Result<(), String>) -> (step:
        Step)
        ensures
            (final(self)@, step@) == old(self)@.on_make_executable(asset_name@, unit_answer(marked)),
    {
        match marked {
            Ok(_) => {
                let path = binary_path(asset_name.as_str());
                self.cached_binary_path = Some(path.clone());
                Step::Done { outcome: Ok(Command::native(path)) }
            },
            Err(message) => Step::Done {
                outcome: Err(ResolveError::ExecutableMarkFailure { message }),
            },
        }
    }
}

} // verus!
