//! The library's error type.

use vstd::prelude::*;
use vstd::string::*;
use crate::text::owned;

verus! {

/// Errors raised while running tools.
#[derive(Debug)]
pub enum CliError {
    /// No API key could be found.
    ApiKeyNotFound,
    /// A tool failed while executing.
    ToolExecution(String),
    /// JSON input could not be read.
    Json(String),
    /// A file-system operation failed.
    Io(String),
    /// A session could not be used.
    Session(String),
    /// An MCP server could not be used.
    Mcp(String),
    /// Any other failure.
    Other(String),
}

/// The text that describes an error.
pub open spec fn error_text(e: CliError) -> Seq<char> {
    match e {
        CliError::ApiKeyNotFound => "API key not found"@,
        CliError::ToolExecution(m) => "Tool execution error: "@ + m@,
        CliError::Json(m) => "JSON error: "@ + m@,
        CliError::Io(m) => "IO error: "@ + m@,
        CliError::Session(m) => "Session error: "@ + m@,
        CliError::Mcp(m) => "MCP error: "@ + m@,
        CliError::Other(m) => m@,
    }
}

/// `r` failed with `CliError::Other` holding the text `m`.
pub open spec fn is_other_err<T>(r: Result<T, CliError>, m: Seq<char>) -> bool {
    r matches Err(CliError::Other(x)) && x@ == m
}

/// `r` failed with `CliError::ToolExecution` holding the text `m`.
pub open spec fn is_exec_err<T>(r: Result<T, CliError>, m: Seq<char>) -> bool {
    r matches Err(CliError::ToolExecution(x)) && x@ == m
}

impl CliError {
    /// The text that describes this error (its display form).
    pub fn to_string(&self) -> (r: String)
        ensures
            r@ == error_text(*self),
    {
        match self {
            CliError::ApiKeyNotFound => owned("API key not found"),
            CliError::ToolExecution(m) => {
                let mut r = owned("Tool execution error: ");
                r.append(m.as_str());
                r
            },
            CliError::Json(m) => {
                let mut r = owned("JSON error: ");
                r.append(m.as_str());
                r
            },
            CliError::Io(m) => {
                let mut r = owned("IO error: ");
                r.append(m.as_str());
                r
            },
            CliError::Session(m) => {
                let mut r = owned("Session error: ");
                r.append(m.as_str());
                r
            },
            CliError::Mcp(m) => {
                let mut r = owned("MCP error: ");
                r.append(m.as_str());
                r
            },
            CliError::Other(m) => m.clone(),
        }
    }
}

} // verus!
