//! Command-line arguments.
use vstd::prelude::*;

verus! {

/// A command-line utility for querying configuration values from Hyprland
/// configuration files.
#[derive(Debug)]
pub struct Args {
    /// Configuration file path.
    pub config_file: String,
    /// Queries to execute (format: `query[expectedType][expectedRegex]`).
    pub queries: Vec<String>,
    /// Schema file path.
    pub schema: Option<String>,
    /// Allow missing values (don't fail with exit code 1).
    pub allow_missing: bool,
    /// Get default keys from schema.
    pub get_defaults: bool,
    /// Enable strict mode validation.
    pub strict: bool,
    /// Export format: `json` or `env`.
    pub export: Option<String>,
    /// Follow source directives in config files.
    pub source: bool,
    /// Enable debug logging.
    pub debug: bool,
    /// Delimiter for plain output.
    pub delimiter: String,
}

} // verus!
