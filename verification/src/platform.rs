//! Operating systems, architectures, and the release asset each pair runs.

use vstd::prelude::*;

use crate::error::{ResolveError, ResolveErrorView};

verus! {

/// An operating system, as the editor reports it.
#[derive(Clone, Copy, Debug, PartialEq, Eq, Structural)]
pub enum Os {
    Mac,
    Linux,
    Windows,
}

/// A processor architecture, as the editor reports it.
#[derive(Clone, Copy, Debug, PartialEq, Eq, Structural)]
pub enum Architecture {
    Aarch64,
    X86,
    X8664,
}

/// The name of the release asset built for a platform, if there is one.
///
/// Intel Macs get the ARM64 build, which the system's translation layer runs,
/// and every Windows machine gets the one x64 build. There is no build for
/// 32-bit x86 on macOS or Linux.
pub open spec fn spec_asset_name(os: Os, arch: Architecture) -> Option<Seq<char>> {
    match (os, arch) {
        (Os::Mac, Architecture::Aarch64) => Some("sight-darwin-arm64"@),
        (Os::Mac, Architecture::X8664) => Some("sight-darwin-arm64"@),
        (Os::Mac, Architecture::X86) => None,
        (Os::Linux, Architecture::Aarch64) => Some("sight-linux-arm64"@),
        (Os::Linux, Architecture::X8664) => Some("sight-linux-x64"@),
        (Os::Linux, Architecture::X86) => None,
        (Os::Windows, Architecture::Aarch64) => Some("sight-windows-x64.exe"@),
        (Os::Windows, Architecture::X8664) => Some("sight-windows-x64.exe"@),
        (Os::Windows, Architecture::X86) => Some("sight-windows-x64.exe"@),
    }
}

/// Whether a release asset is built for the platform.
pub open spec fn supported(os: Os, arch: Architecture) -> bool {
    os == Os::Windows || arch != Architecture::X86
}

/// The platforms with a release asset are the supported ones.
pub proof fn lemma_supported_platforms_have_an_asset(os: Os, arch: Architecture)
    ensures
        supported(os, arch) <==> spec_asset_name(os, arch) is Some,
{
}

/// Names the release asset for a platform, or reports the platform as
/// unsupported. The answer depends on the two arguments and on nothing else.
pub fn asset_name(os: Os, arch: Architecture) -> (found: Result<&'static str, ResolveError>)
    ensures
        supported(os, arch) <==> found is Ok,
        found matches Ok(name) ==> spec_asset_name(os, arch) == Some(name@),
        found matches Err(error) ==> error@ == (ResolveErrorView::UnsupportedPlatform { os, arch }),
{
    match os {
        Os::Mac => match arch {
            Architecture::Aarch64 => Ok("sight-darwin-arm64"),
            Architecture::X8664 => Ok("sight-darwin-arm64"),
            Architecture::X86 => Err(ResolveError::UnsupportedPlatform { os, arch }),
        },
        Os::Linux => match arch {
            Architecture::Aarch64 => Ok("sight-linux-arm64"),
            Architecture::X8664 => Ok("sight-linux-x64"),
            Architecture::X86 => Err(ResolveError::UnsupportedPlatform { os, arch }),
        },
        Os::Windows => Ok("sight-windows-x64.exe"),
    }
}

/// What `Debug` prints for the editor's own value of an operating system:
/// the type's name, two colons, and the variant's name.
pub open spec fn spec_os_debug(os: Os) -> Seq<char> {
    match os {
        Os::Mac => "Os::Mac"@,
        Os::Linux => "Os::Linux"@,
        Os::Windows => "Os::Windows"@,
    }
}

/// What `Debug` prints for the editor's own value of an architecture.
pub open spec fn spec_architecture_debug(arch: Architecture) -> Seq<char> {
    match arch {
        Architecture::Aarch64 => "Architecture::Aarch64"@,
        Architecture::X86 => "Architecture::X86"@,
        Architecture::X8664 => "Architecture::X8664"@,
    }
}

/// Formats the matching `zed_extension_api::Os` with its `Debug` impl.
///
/// Trusted: `zed_extension_api` has `wit-bindgen` write the impl from its
/// interface `platform`. The generator prints an enum's case as the Rust name
/// of the type, `::`, and the Rust name of the case; `mac`, `linux` and
/// `windows` become `Mac`, `Linux` and `Windows`.
#[verifier::external_body]
pub(crate) fn os_debug(os: Os) -> (text: String)
    ensures
        text@ == spec_os_debug(os),
{
    let host = match os {
        Os::Mac => zed_extension_api::Os::Mac,
        Os::Linux => zed_extension_api::Os::Linux,
        Os::Windows => zed_extension_api::Os::Windows,
    };
    format!("{:?}", host)
}

/// Formats the matching `zed_extension_api::Architecture` with its `Debug`
/// impl.
///
/// Trusted, on the same grounds as for the operating system: the cases
/// `aarch64`, `x86` and `x8664` become `Aarch64`, `X86` and `X8664`.
#[verifier::external_body]
pub(crate) fn architecture_debug(arch: Architecture) -> (text: String)
    ensures
        text@ == spec_architecture_debug(arch),
{
    let host = match arch {
        Architecture::Aarch64 => zed_extension_api::Architecture::Aarch64,
        Architecture::X86 => zed_extension_api::Architecture::X86,
        Architecture::X8664 => zed_extension_api::Architecture::X8664,
    };
    format!("{:?}", host)
}

} // verus!
