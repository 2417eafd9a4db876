//! The version report itself: locating the marker file and laying out the
//! text that the front end prints.
//!
//! The run is a straight line — resolve the base directory, compute the
//! marker path, validate it, read it, print — and every step but the raw
//! read and the printing is decided here.
use vstd::prelude::*;
use vstd::string::StringExecFns;

use crate::constants::{CLI_VERSION_FILE, VAR_DIR};
use crate::constants::DEFAULT_SDKMAN_HOME;
use crate::directory_utils::{infer_sdkman_dir, join_path, override_set, spec_join};
use crate::errors::VersionError;
use crate::file_utils::{check_file_exists, read_file_content, spec_content_result};

verus! {

/// The version marker path under a base directory: `base/var/version`, with
/// both segments fixed and non-configurable.
pub open spec fn spec_marker_path(base: Seq<char>) -> Seq<char> {
    spec_join(spec_join(base, VAR_DIR@), CLI_VERSION_FILE@)
}

/// Joins the fixed `var/version` segments onto the base directory.
pub fn cli_version_file_path(base: &str) -> (r: String)
    ensures
        r@ == spec_marker_path(base@),
{
    let var_dir = join_path(base, VAR_DIR);
    join_path(var_dir.as_str(), CLI_VERSION_FILE)
}

/// Resolves the base directory from the override value and the home
/// directory, and validates that its `var/version` marker names an existing
/// regular file. On success the marker path comes back; with no directory to
/// resolve the failure is the resolution error, and every other failure is
/// the file-not-found error.
pub fn locate_version_file(env_value: Option<&str>, home: Option<&str>) -> (r: Result<
    String,
    VersionError,
>)
    ensures
        env_value matches Some(s) ==> (s@.len() > 0 ==> (r is Ok ==> r->Ok_0@ == spec_marker_path(
            s@,
        ))),
        !override_set(env_value) ==> (home matches Some(h) ==> (r is Ok ==> r->Ok_0@
            == spec_marker_path(spec_join(h@, DEFAULT_SDKMAN_HOME@)))),
        !override_set(env_value) && home is None ==> r == Err::<String, VersionError>(
            VersionError::DirectoryResolutionFailure,
        ),
        (override_set(env_value) || home is Some) && r is Err ==> r == Err::<String, VersionError>(
            VersionError::FileNotFound,
        ),
{
    let base = match infer_sdkman_dir(env_value, home) {
        Ok(dir) => dir,
        Err(e) => {
            return Err(e);
        },
    };
    let marker = cli_version_file_path(base.as_str());
    check_file_exists(marker.as_str())
}

/// The report body in its fixed layout: the script version on one line, the
/// native version with the operating system and architecture on the next,
/// and a trailing newline that leaves a blank line once printed.
pub open spec fn spec_report(
    script: Seq<char>,
    native: Seq<char>,
    os: Seq<char>,
    arch: Seq<char>,
) -> Seq<char> {
    "script: "@ + script + "\nnative: "@ + native + " ("@ + os + " "@ + arch + ")\n"@
}

/// Lays out the report text, exactly as [`spec_report`] states.
pub fn format_report(script_version: &str, native_version: &str, os: &str, arch: &str) -> (r:
    String)
    ensures
        r@ == spec_report(script_version@, native_version@, os@, arch@),
{
    let mut r = "script: ".to_owned();
    r.append(script_version);
    r.append("\nnative: ");
    r.append(native_version);
    r.append(" (");
    r.append(os);
    r.append(" ");
    r.append(arch);
    r.append(")\n");
    r
}

/// Turns the raw marker-file read outcome into the final report body, or
/// into the error the front end surfaces: a failed read keeps its cause,
/// whitespace-only content is the empty-content failure, and a good read
/// yields the full report around the trimmed version string.
pub fn build_report(
    raw: Result<String, String>,
    native_version: &str,
    os: &str,
    arch: &str,
) -> (r: Result<String, VersionError>)
    ensures
        raw matches Err(m) ==> r == Err::<String, VersionError>(
            VersionError::ContentReadFailure(m),
        ),
        raw matches Ok(c) ==> match spec_content_result(c@) {
            Ok(t) => r is Ok && r->Ok_0@ == spec_report(t, native_version@, os@, arch@),
            Err(e) => r == Err::<String, VersionError>(e),
        },
{
    match read_file_content(raw) {
        Ok(version) => Ok(format_report(version.as_str(), native_version, os, arch)),
        Err(e) => Err(e),
    }
}

} // verus!
