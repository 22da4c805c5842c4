use sight_resolver::error::ResolveError;
use sight_resolver::platform::{asset_name, Architecture, Os};

#[test]
fn unsupported_platform_message_names_the_pair() {
    let error = asset_name(Os::Linux, Architecture::X86).unwrap_err();
    assert_eq!(
        error,
        ResolveError::UnsupportedPlatform { os: Os::Linux, arch: Architecture::X86 }
    );
    assert_eq!(error.message(), "Unsupported platform: Os::Linux Architecture::X86");
    let error = asset_name(Os::Mac, Architecture::X86).unwrap_err();
    assert_eq!(error.message(), "Unsupported platform: Os::Mac Architecture::X86");
}

#[test]
fn unsupported_platform_message_prints_every_system_and_architecture() {
    let message = |os, arch| ResolveError::UnsupportedPlatform { os, arch }.message();
    assert_eq!(
        message(Os::Windows, Architecture::Aarch64),
        "Unsupported platform: Os::Windows Architecture::Aarch64"
    );
    assert_eq!(
        message(Os::Mac, Architecture::X8664),
        "Unsupported platform: Os::Mac Architecture::X8664"
    );
    assert_eq!(
        message(Os::Linux, Architecture::X86),
        "Unsupported platform: Os::Linux Architecture::X86"
    );
}

#[test]
fn unsupported_platform_message_prints_as_the_editor_does() {
    let pairs = [
        (Os::Mac, zed_extension_api::Os::Mac),
        (Os::Linux, zed_extension_api::Os::Linux),
        (Os::Windows, zed_extension_api::Os::Windows),
    ];
    let architectures = [
        (Architecture::Aarch64, zed_extension_api::Architecture::Aarch64),
        (Architecture::X86, zed_extension_api::Architecture::X86),
        (Architecture::X8664, zed_extension_api::Architecture::X8664),
    ];
    for (os, host_os) in pairs {
        for (arch, host_arch) in architectures {
            assert_eq!(
                ResolveError::UnsupportedPlatform { os, arch }.message(),
                format!("Unsupported platform: {:?} {:?}", host_os, host_arch)
            );
        }
    }
}

#[test]
fn directory_creation_failure_message() {
    let error = ResolveError::DirectoryCreationFailure { message: "Permission denied".to_string() };
    assert_eq!(error.message(), "Failed to create directory: Permission denied");
}

#[test]
fn download_failure_message_keeps_the_asset_and_the_complaint() {
    let error = ResolveError::DownloadFailure {
        asset_name: "sight-linux-x64".to_string(),
        message: "404 Not Found".to_string(),
    };
    assert_eq!(error.message(), "Failed to download sight-linux-x64: 404 Not Found");
}

#[test]
fn complaints_of_the_editor_are_passed_on_as_they_came() {
    let error = ResolveError::ExecutableMarkFailure { message: "chmod failed".to_string() };
    assert_eq!(error.message(), "chmod failed");
    let error = ResolveError::InterpreterUnavailable { message: "no node".to_string() };
    assert_eq!(error.message(), "no node");
}

#[test]
fn empty_complaints_give_the_bare_prefix() {
    let error = ResolveError::DirectoryCreationFailure { message: String::new() };
    assert_eq!(error.message(), "Failed to create directory: ");
    let error =
        ResolveError::DownloadFailure { asset_name: String::new(), message: String::new() };
    assert_eq!(error.message(), "Failed to download : ");
}
