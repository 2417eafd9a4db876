//! Validation of the version marker path and extraction of its content.
//!
//! The existence check queries the filesystem through two trusted calls;
//! everything decided from their answers, and the whole content extraction,
//! is verified. The raw file read itself happens in the front end, which
//! hands the outcome in as a plain value.
use vstd::prelude::*;
use vstd::string::StrSliceExecFns;

use crate::errors::VersionError;
use crate::trim::{is_ws, lemma_trim_empty_iff_whitespace, spec_trim, trim_str};

verus! {

/// Relies on std::path::Path::exists: whether the path points at an existing
/// filesystem entity. The answer depends on the state of the filesystem, so
/// nothing is promised of it.
#[verifier::external_body]
fn path_exists(path: &str) -> bool {
    std::path::Path::new(path).exists()
}

/// Relies on std::path::Path::is_file: whether the path points at a regular
/// file. The answer depends on the state of the filesystem, so nothing is
/// promised of it.
#[verifier::external_body]
fn path_is_file(path: &str) -> bool {
    std::path::Path::new(path).is_file()
}

/// The validation verdict for a path the filesystem described with the two
/// answers `exists` and `regular`: the path passes, unchanged, exactly when
/// it exists and is a regular file, and every rejection — missing entry and
/// wrong kind alike — is the single `FileNotFound` error.
pub fn classify_file_check(path: String, exists: bool, regular: bool) -> (r: Result<
    String,
    VersionError,
>)
    ensures
        r is Ok <==> exists && regular,
        r is Ok ==> r->Ok_0 == path,
        !(exists && regular) ==> r == Err::<String, VersionError>(VersionError::FileNotFound),
{
    if exists && regular {
        Ok(path)
    } else {
        Err(VersionError::FileNotFound)
    }
}

/// Checks that `path` names an existing regular file, returning the path
/// unchanged on success. Which verdict comes back depends on the
/// filesystem; the verdict for each pair of filesystem answers is pinned by
/// [`classify_file_check`].
pub fn check_file_exists(path: &str) -> (r: Result<String, VersionError>)
    ensures
        r is Ok ==> r->Ok_0@ == path@,
        r is Err ==> r == Err::<String, VersionError>(VersionError::FileNotFound),
{
    let exists = path_exists(path);
    let regular = path_is_file(path);
    classify_file_check(path.to_owned(), exists, regular)
}

/// What extraction makes of a file's text: the trimmed text when something
/// remains of it, and the empty-content failure otherwise.
pub open spec fn spec_content_result(content: Seq<char>) -> Result<Seq<char>, VersionError> {
    if spec_trim(content).len() == 0 {
        Err(VersionError::EmptyContentFailure)
    } else {
        Ok(spec_trim(content))
    }
}

/// Turns the raw outcome of reading the marker file into the version
/// string: a failed read is propagated with its cause, a read of only
/// whitespace is the empty-content failure, and anything else yields the
/// trimmed, non-empty text.
pub fn read_file_content(raw: Result<String, String>) -> (r: Result<String, VersionError>)
    ensures
        raw matches Err(m) ==> r == Err::<String, VersionError>(
            VersionError::ContentReadFailure(m),
        ),
        raw matches Ok(c) ==> match spec_content_result(c@) {
            Ok(t) => r is Ok && r->Ok_0@ == t,
            Err(e) => r == Err::<String, VersionError>(e),
        },
        r is Ok ==> r->Ok_0@.len() > 0,
{
    match raw {
        Ok(content) => {
            let trimmed = trim_str(content.as_str());
            if trimmed.as_str().unicode_len() == 0 {
                Err(VersionError::EmptyContentFailure)
            } else {
                Ok(trimmed)
            }
        },
        Err(m) => Err(VersionError::ContentReadFailure(m)),
    }
}

/// Extraction is a function of the file's text alone: the same unchanged
/// content always produces the same result, so reading an unchanged file
/// twice cannot disagree with itself.
pub proof fn lemma_content_extraction_deterministic(c1: Seq<char>, c2: Seq<char>)
    requires
        c1 == c2,
    ensures
        spec_content_result(c1) == spec_content_result(c2),
{
}

/// Content of nothing but whitespace is rejected as the empty-content
/// failure, never returned as a successful empty version string.
pub proof fn lemma_whitespace_only_content_fails(c: Seq<char>)
    requires
        forall|i: int| 0 <= i < c.len() ==> is_ws(c[i]),
    ensures
        spec_content_result(c) == Err::<Seq<char>, VersionError>(VersionError::EmptyContentFailure),
{
    lemma_trim_empty_iff_whitespace(c);
}

/// A successful extraction never yields the empty string.
pub proof fn lemma_successful_content_nonempty(c: Seq<char>)
    ensures
        spec_content_result(c) is Ok ==> spec_content_result(c)->Ok_0.len() > 0,
{
}

} // verus!
