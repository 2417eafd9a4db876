//! Reports the version of a locally installed SDKMAN setup: resolves the
//! base data directory, validates and reads the stored version marker file,
//! and formats the report that the command-line front end prints.
pub mod constants;
pub mod directory_utils;
pub mod errors;
pub mod file_utils;
pub mod reporter;
pub mod trim;
