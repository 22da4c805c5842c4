//! The ways in which resolution fails, and the text each is reported with.

use vstd::prelude::*;
use vstd::string::StringExecFns;

use crate::platform::{
    architecture_debug, os_debug, spec_architecture_debug, spec_os_debug, Architecture, Os,
};

verus! {

/// Why the server could not be resolved.
#[derive(Clone, Debug, PartialEq, Eq)]
pub enum ResolveError {
    /// No release asset is built for the platform.
    UnsupportedPlatform { os: Os, arch: Architecture },
    /// The editor could not provide its Node interpreter.
    InterpreterUnavailable { message: String },
    /// The directory for this release could not be created.
    DirectoryCreationFailure { message: String },
    /// The editor could not download the asset.
    DownloadFailure { asset_name: String, message: String },
    /// The editor could not mark the downloaded file as executable.
    ExecutableMarkFailure { message: String },
}

/// A `ResolveError` with its texts as sequences of characters.
pub enum ResolveErrorView {
    UnsupportedPlatform { os: Os, arch: Architecture },
    InterpreterUnavailable { message: Seq<char> },
    DirectoryCreationFailure { message: Seq<char> },
    DownloadFailure { asset_name: Seq<char>, message: Seq<char> },
    ExecutableMarkFailure { message: Seq<char> },
}

impl View for ResolveError {
    type V = ResolveErrorView;

    open spec fn view(&self) -> ResolveErrorView {
        match *self {
            ResolveError::UnsupportedPlatform { os, arch } => ResolveErrorView::UnsupportedPlatform {
                os,
                arch,
            },
            ResolveError::InterpreterUnavailable { message } => {
                ResolveErrorView::InterpreterUnavailable { message: message@ }
            },
            ResolveError::DirectoryCreationFailure { message } => {
                ResolveErrorView::DirectoryCreationFailure { message: message@ }
            },
            ResolveError::DownloadFailure { asset_name, message } => {
                ResolveErrorView::DownloadFailure { asset_name: asset_name@, message: message@ }
            },
            ResolveError::ExecutableMarkFailure { message } => {
                ResolveErrorView::ExecutableMarkFailure { message: message@ }
            },
        }
    }
}

impl ResolveErrorView {
    /// The text that the editor is given for the error. What the editor said
    /// about its interpreter or about marking a file is passed on as it came.
    pub open spec fn message(self) -> Seq<char> {
        match self {
            ResolveErrorView::UnsupportedPlatform { os, arch } => {
                "Unsupported platform: "@ + spec_os_debug(os) + " "@ + spec_architecture_debug(arch)
            },
            ResolveErrorView::InterpreterUnavailable { message } => message,
            ResolveErrorView::DirectoryCreationFailure { message } => {
                "Failed to create directory: "@ + message
            },
            ResolveErrorView::DownloadFailure { asset_name, message } => {
                "Failed to download "@ + asset_name + ": "@ + message
            },
            ResolveErrorView::ExecutableMarkFailure { message } => message,
        }
    }
}

impl ResolveError {
    /// Renders the error as the text that the editor shows.
    pub fn message(&self) -> (text: String)
        ensures
            text@ == self@.message(),
    {
        match self {
            ResolveError::UnsupportedPlatform { os, arch } => {
                let mut text = String::from_str("Unsupported platform: ");
                let os_text = os_debug(*os);
                let arch_text = architecture_debug(*arch);
                text.append(os_text.as_str());
                text.append(" ");
                text.append(arch_text.as_str());
                text
            },
            ResolveError::InterpreterUnavailable { message } => message.clone(),
            ResolveError::DirectoryCreationFailure { message } => {
                let mut text = String::from_str("Failed to create directory: ");
                text.append(message.as_str());
                text
            },
            ResolveError::DownloadFailure { asset_name, message } => {
                let mut text = String::from_str("Failed to download ");
                text.append(asset_name.as_str());
                text.append(": ");
                text.append(message.as_str());
                text
            },
            ResolveError::ExecutableMarkFailure { message } => message.clone(),
        }
    }
}

} // verus!
