//! Resolution of the SDKMAN base directory.
//!
//! The override value and the home directory are explicit inputs here: the
//! front end reads the environment and hands the plain values in, so the
//! resolution rules stay testable without touching process state.
use vstd::prelude::*;
use vstd::string::StrSliceExecFns;
use vstd::string::StringExecFns;

use crate::constants::DEFAULT_SDKMAN_HOME;
use crate::errors::VersionError;

verus! {

/// Path join with a single separator: `base` then `/` then `child`, with no
/// doubled separator and no separator after an empty base. `child` is always
/// taken as a relative name.
pub open spec fn spec_join(base: Seq<char>, child: Seq<char>) -> Seq<char> {
    if base.len() == 0 {
        child
    } else if base.last() == '/' {
        base + child
    } else {
        base + "/"@ + child
    }
}

/// Joins `child` onto `base`, exactly as [`spec_join`] states.
pub fn join_path(base: &str, child: &str) -> (r: String)
    ensures
        r@ == spec_join(base@, child@),
{
    let n = base.unicode_len();
    if n == 0 {
        child.to_owned()
    } else if base.get_char(n - 1) == '/' {
        let mut r = base.to_owned();
        r.append(child);
        r
    } else {
        let mut r = base.to_owned();
        r.append("/");
        r.append(child);
        r
    }
}

/// Whether the override environment value is set and non-empty, which is
/// what makes it win over the home-directory fallback.
pub open spec fn override_set(env_value: Option<&str>) -> bool {
    match env_value {
        Some(s) => s@.len() > 0,
        None => false,
    }
}

/// The default SDKMAN directory: the hidden `.sdkman` folder under the
/// user's home directory.
pub fn fallback_sdkman_dir(home: &str) -> (r: String)
    ensures
        r@ == spec_join(home@, DEFAULT_SDKMAN_HOME@),
{
    join_path(home, DEFAULT_SDKMAN_HOME)
}

/// Determines the SDKMAN directory from the override value and the home
/// directory. A set, non-empty override wins verbatim, with no filesystem
/// validation; otherwise the home fallback applies; with neither available
/// the resolution fails.
pub fn infer_sdkman_dir(env_value: Option<&str>, home: Option<&str>) -> (r: Result<
    String,
    VersionError,
>)
    ensures
        env_value matches Some(s) ==> (s@.len() > 0 ==> r is Ok && r->Ok_0@ == s@),
        !override_set(env_value) ==> (home matches Some(h) ==> r is Ok && r->Ok_0@ == spec_join(
            h@,
            DEFAULT_SDKMAN_HOME@,
        )),
        !override_set(env_value) && home is None ==> r == Err::<String, VersionError>(
            VersionError::DirectoryResolutionFailure,
        ),
{
    match env_value {
        Some(s) => {
            if s.unicode_len() > 0 {
                return Ok(s.to_owned());
            }
        },
        None => {},
    }
    match home {
        Some(h) => Ok(fallback_sdkman_dir(h)),
        None => Err(VersionError::DirectoryResolutionFailure),
    }
}

} // verus!
