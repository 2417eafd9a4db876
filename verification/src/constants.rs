//! Fixed names used across the SDKMAN directory layout.
use vstd::prelude::*;

verus! {

pub const CANDIDATES_DIR: &'static str = "candidates";

pub const CANDIDATES_FILE: &'static str = "candidates";

pub const CURRENT_DIR: &'static str = "current";

pub const DEFAULT_SDKMAN_HOME: &'static str = ".sdkman";

pub const SDKMAN_DIR_ENV_VAR: &'static str = "SDKMAN_DIR";

pub const TMP_DIR: &'static str = "tmp";

pub const VAR_DIR: &'static str = "var";

pub const CLI_VERSION_FILE: &'static str = "version";

} // verus!
