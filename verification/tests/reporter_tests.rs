use std::io::{Read, Write};

use tempfile::{Builder, NamedTempFile, TempDir};

use sdkran::errors::{error_message, VersionError};
use sdkran::reporter::{build_report, cli_version_file_path, format_report, locate_version_file};

fn var_version_file(base: &TempDir, content: &[u8]) -> (TempDir, NamedTempFile) {
    let var_dir = Builder::new()
        .prefix("var")
        .rand_bytes(0)
        .tempdir_in(base.path())
        .unwrap();
    let mut version_file = Builder::new()
        .prefix("version")
        .rand_bytes(0)
        .tempfile_in(var_dir.path())
        .unwrap();
    version_file.write_all(content).unwrap();
    (var_dir, version_file)
}

fn read_back(file: &NamedTempFile) -> String {
    let mut reader = file.reopen().unwrap();
    let mut raw = String::new();
    reader.read_to_string(&mut raw).unwrap();
    raw
}

#[test]
fn formats_report_in_fixed_layout() {
    let report = format_report("5.9.0", "0.1.0", "linux", "x86_64");
    assert_eq!(report, "script: 5.9.0\nnative: 0.1.0 (linux x86_64)\n");
}

#[test]
fn computes_marker_path_under_base() {
    assert_eq!(cli_version_file_path("/opt/sdkman"), "/opt/sdkman/var/version");
    assert_eq!(cli_version_file_path("/opt/sdkman/"), "/opt/sdkman/var/version");
}

#[test]
fn error_messages_are_fixed_per_kind() {
    assert_eq!(
        error_message(&VersionError::FileNotFound),
        "CLI version file not found."
    );
    assert_eq!(
        error_message(&VersionError::EmptyContentFailure),
        "Failed to read file content: File is empty"
    );
    assert_eq!(
        error_message(&VersionError::ContentReadFailure("cause".to_owned())),
        "Failed to read file content: cause"
    );
    assert_eq!(
        error_message(&VersionError::DirectoryResolutionFailure),
        "Failed to infer SDKMAN directory: no home directory available"
    );
}

#[test]
fn reports_version_from_override_directory() {
    let base = TempDir::new().unwrap();
    let (_var_dir, version_file) = var_version_file(&base, b"5.9.0");
    let base_str = base.path().to_str().unwrap();

    let marker = locate_version_file(Some(base_str), None).unwrap();
    assert_eq!(marker, format!("{}/var/version", base_str));

    let report = build_report(Ok(read_back(&version_file)), "0.1.0", "linux", "x86_64").unwrap();
    assert!(report.contains("script: 5.9.0"));
}

#[test]
fn missing_marker_file_reports_not_found() {
    let base = TempDir::new().unwrap();
    let base_str = base.path().to_str().unwrap();

    let err = locate_version_file(Some(base_str), None).unwrap_err();
    assert_eq!(err, VersionError::FileNotFound);
    assert_eq!(error_message(&err), "CLI version file not found.");
}

#[test]
fn empty_marker_file_reports_failed_content_read() {
    let base = TempDir::new().unwrap();
    let (_var_dir, version_file) = var_version_file(&base, b"");
    let base_str = base.path().to_str().unwrap();

    let marker = locate_version_file(Some(base_str), None).unwrap();
    assert_eq!(marker, format!("{}/var/version", base_str));

    let err = build_report(Ok(read_back(&version_file)), "0.1.0", "linux", "x86_64").unwrap_err();
    assert_eq!(err, VersionError::EmptyContentFailure);
    assert!(error_message(&err).contains("Failed to read file content"));
}

#[test]
fn marker_that_is_a_directory_reports_not_found() {
    let base = TempDir::new().unwrap();
    let var_dir = Builder::new()
        .prefix("var")
        .rand_bytes(0)
        .tempdir_in(base.path())
        .unwrap();
    let _version_dir = Builder::new()
        .prefix("version")
        .rand_bytes(0)
        .tempdir_in(var_dir.path())
        .unwrap();

    let err = locate_version_file(Some(base.path().to_str().unwrap()), None).unwrap_err();
    assert_eq!(err, VersionError::FileNotFound);
}

#[test]
fn unresolvable_directory_reports_resolution_failure() {
    let err = locate_version_file(None, None).unwrap_err();
    assert_eq!(err, VersionError::DirectoryResolutionFailure);
}

#[test]
fn failed_read_is_wrapped_in_the_report_error() {
    let err = build_report(Err("I/O fault".to_owned()), "0.1.0", "linux", "x86_64").unwrap_err();
    assert_eq!(err, VersionError::ContentReadFailure("I/O fault".to_owned()));
}
