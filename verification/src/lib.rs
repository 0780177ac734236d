//! Query values from hypr* configuration files.
//!
//! A query `key[expectedType][expectedRegex]` names a configuration key
//! (or a `$variable`) and optional filters. The library parses queries,
//! turns what the configuration holds into filtered results, renders them
//! as plain text, environment variables or JSON records, finds `source`
//! directives and keeps each sourced file from being parsed twice, and
//! derives schema defaults.
pub mod cli;
pub mod defaults;
pub mod error;
pub mod export;
pub mod filter;
pub mod help;
pub mod path;
pub mod query;
pub mod resolve;
pub mod schema;
pub mod source;
pub mod text;
pub mod value;
pub mod walk;
