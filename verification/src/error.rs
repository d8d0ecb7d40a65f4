//! The library's error type.
use vstd::prelude::*;

use crate::text::{append_chars, append_str, chars_of, string_of};

verus! {

/// What went wrong, with a message.
#[derive(Debug)]
pub enum CrustyError {
    /// The memory database failed.
    SqliteError(String),
    /// An AI proxy could not be checked, started or stopped.
    AIProxyError(String),
    /// The agent's memory could not be read or written.
    AgentMemoryError(String),
    /// The agent could not be created or could not answer.
    AgentError(String),
    /// Data had an unexpected form.
    InvalidDataError(String),
    /// An npm package could not be checked or installed.
    PackageError(String),
    /// A process could not be started or stopped.
    ProcessError(String),
    /// A plugin could not be installed or loaded.
    PluginError(String),
    /// The configuration is missing or does not allow the request.
    ConfigError(String),
    /// A tool of the agent failed.
    ToolError(String),
}

/// `e` is a configuration error with the message `text`.
pub open spec fn is_config_error(e: CrustyError, text: Seq<char>) -> bool {
    e matches CrustyError::ConfigError(m) && m@ == text
}

/// The heading that the error's message starts with.
pub open spec fn error_heading(e: CrustyError) -> Seq<char> {
    match e {
        CrustyError::SqliteError(_) => "Database Error: "@,
        CrustyError::AIProxyError(_) => "AI Proxy Error: "@,
        CrustyError::AgentMemoryError(_) => "Agent Memory Error: "@,
        CrustyError::AgentError(_) => "Agent Error: "@,
        CrustyError::InvalidDataError(_) => "Invalid Data Error: "@,
        CrustyError::PackageError(_) => "Package Error: "@,
        CrustyError::ProcessError(_) => "Process Error: "@,
        CrustyError::PluginError(_) => "Plugin Error: "@,
        CrustyError::ConfigError(_) => "Config Error: "@,
        CrustyError::ToolError(_) => "Tool Error: "@,
    }
}

/// The message carried by the error.
pub open spec fn error_detail(e: CrustyError) -> Seq<char> {
    match e {
        CrustyError::SqliteError(m) => m@,
        CrustyError::AIProxyError(m) => m@,
        CrustyError::AgentMemoryError(m) => m@,
        CrustyError::AgentError(m) => m@,
        CrustyError::InvalidDataError(m) => m@,
        CrustyError::PackageError(m) => m@,
        CrustyError::ProcessError(m) => m@,
        CrustyError::PluginError(m) => m@,
        CrustyError::ConfigError(m) => m@,
        CrustyError::ToolError(m) => m@,
    }
}

impl CrustyError {
    /// A configuration error with the given text.
    pub fn config(text: &str) -> (e: CrustyError)
        ensures
            is_config_error(e, text@),
    {
        CrustyError::ConfigError(text.to_owned())
    }

    /// The text that the error displays: its heading, then its message.
    pub fn to_string(&self) -> (s: String)
        ensures
            s@ == error_heading(*self) + error_detail(*self),
    {
        let (heading, detail) = match self {
            CrustyError::SqliteError(m) => ("Database Error: ", m),
            CrustyError::AIProxyError(m) => ("AI Proxy Error: ", m),
            CrustyError::AgentMemoryError(m) => ("Agent Memory Error: ", m),
            CrustyError::AgentError(m) => ("Agent Error: ", m),
            CrustyError::InvalidDataError(m) => ("Invalid Data Error: ", m),
            CrustyError::PackageError(m) => ("Package Error: ", m),
            CrustyError::ProcessError(m) => ("Process Error: ", m),
            CrustyError::PluginError(m) => ("Plugin Error: ", m),
            CrustyError::ConfigError(m) => ("Config Error: ", m),
            CrustyError::ToolError(m) => ("Tool Error: ", m),
        };
        let mut v = chars_of(heading);
        append_str(&mut v, detail.as_str());
        string_of(&v)
    }
}

/// The text `a`, then `b`, then `c`.
pub fn join3(a: &str, b: &str, c: &str) -> (s: String)
    ensures
        s@ == a@ + b@ + c@,
{
    let mut v = chars_of(a);
    append_str(&mut v, b);
    let t = chars_of(c);
    append_chars(&mut v, &t);
    string_of(&v)
}

} // verus!
