//! The library's error type: a category and a human-readable message.
use vstd::prelude::*;
use vstd::string::StringExecFns;

verus! {

/// Category of an `AppError`.
#[derive(Debug, Clone, Copy, PartialEq, Eq, Structural)]
pub enum ErrorKind {
    /// A file that the query needs does not exist.
    NotFound,
    /// The input (configuration, schema, query or path) is malformed.
    BadRequest,
    /// Reading or writing failed.
    Internal,
}

/// Application error for hyprquery: what went wrong and a message that
/// names the offending input.
#[derive(Debug)]
pub struct AppError {
    /// Category of the failure.
    pub kind: ErrorKind,
    /// Full message, such as `Configuration file not found: <path>`.
    pub message: String,
}

/// Builds an error of `kind` whose message is `prefix` followed by `detail`.
fn with_prefix(kind: ErrorKind, prefix: &str, detail: &str) -> (e: AppError)
    ensures
        e.kind == kind,
        e.message@ == prefix@ + detail@,
{
    let mut message = String::from_str(prefix);
    message.append(detail);
    AppError { kind, message }
}

impl AppError {
    /// Configuration file not found.
    pub fn config_not_found(path: &str) -> (e: AppError)
        ensures
            e.kind == ErrorKind::NotFound,
            e.message@ == "Configuration file not found: "@ + path@,
    {
        with_prefix(ErrorKind::NotFound, "Configuration file not found: ", path)
    }

    /// Schema file not found.
    pub fn schema_not_found(path: &str) -> (e: AppError)
        ensures
            e.kind == ErrorKind::NotFound,
            e.message@ == "Schema file not found: "@ + path@,
    {
        with_prefix(ErrorKind::NotFound, "Schema file not found: ", path)
    }

    /// The configuration could not be parsed.
    pub fn config_parse(msg: &str) -> (e: AppError)
        ensures
            e.kind == ErrorKind::BadRequest,
            e.message@ == "Failed to parse configuration: "@ + msg@,
    {
        with_prefix(ErrorKind::BadRequest, "Failed to parse configuration: ", msg)
    }

    /// The schema could not be parsed.
    pub fn schema_parse(msg: &str) -> (e: AppError)
        ensures
            e.kind == ErrorKind::BadRequest,
            e.message@ == "Failed to parse schema: "@ + msg@,
    {
        with_prefix(ErrorKind::BadRequest, "Failed to parse schema: ", msg)
    }

    /// A query is malformed (for instance its regex does not compile).
    pub fn invalid_query(msg: &str) -> (e: AppError)
        ensures
            e.kind == ErrorKind::BadRequest,
            e.message@ == "Invalid query format: "@ + msg@,
    {
        with_prefix(ErrorKind::BadRequest, "Invalid query format: ", msg)
    }

    /// Reading or writing failed.
    pub fn io(msg: &str) -> (e: AppError)
        ensures
            e.kind == ErrorKind::Internal,
            e.message@ == "IO error: "@ + msg@,
    {
        with_prefix(ErrorKind::Internal, "IO error: ", msg)
    }

    /// A path could not be resolved.
    pub fn path_resolution(msg: &str) -> (e: AppError)
        ensures
            e.kind == ErrorKind::BadRequest,
            e.message@ == "Path resolution error: "@ + msg@,
    {
        with_prefix(ErrorKind::BadRequest, "Path resolution error: ", msg)
    }

    /// The message of this error, as its `Display` form shows it.
    pub fn message(&self) -> (m: &str)
        ensures
            m@ == self.message@,
    {
        self.message.as_str()
    }
}

} // verus!
