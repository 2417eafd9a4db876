//! The failure kinds of a version report, and the exact message printed
//! for each of them.
use vstd::prelude::*;
use vstd::string::StringExecFns;

verus! {

/// Every way a report run can fail. Each failure is fatal for the run and
/// surfaced once at the top level; nothing is retried.
#[derive(Debug, Clone, PartialEq, Eq)]
pub enum VersionError {
    /// No override was given and no home directory could be determined.
    DirectoryResolutionFailure,
    /// The version marker path does not exist or is not a regular file.
    FileNotFound,
    /// The marker file exists but could not be read; holds the underlying
    /// cause's description.
    ContentReadFailure(String),
    /// The marker file was read but held only whitespace.
    EmptyContentFailure,
}

/// The user-facing message for `e`. The marker path is never echoed back;
/// only a read failure carries its underlying cause.
pub open spec fn spec_error_message(e: VersionError) -> Seq<char> {
    match e {
        VersionError::DirectoryResolutionFailure => "Failed to infer SDKMAN directory: no home directory available"@,
        VersionError::FileNotFound => "CLI version file not found."@,
        VersionError::ContentReadFailure(m) => "Failed to read file content: "@ + m@,
        VersionError::EmptyContentFailure => "Failed to read file content: File is empty"@,
    }
}

/// Renders the message that the front end prints after its `Error: ` tag.
pub fn error_message(e: &VersionError) -> (r: String)
    ensures
        r@ == spec_error_message(*e),
{
    match e {
        VersionError::DirectoryResolutionFailure => {
            "Failed to infer SDKMAN directory: no home directory available".to_owned()
        },
        VersionError::FileNotFound => "CLI version file not found.".to_owned(),
        VersionError::ContentReadFailure(m) => {
            let mut r = "Failed to read file content: ".to_owned();
            r.append(m.as_str());
            r
        },
        VersionError::EmptyContentFailure => {
            "Failed to read file content: File is empty".to_owned()
        },
    }
}

} // verus!
