//! The library's error type and the message shown for each error.

use vstd::prelude::*;
use vstd::string::*;
use crate::text::{decimal, decimal_text};

verus! {

/// What can go wrong outside the pure logic of the store.
#[derive(Clone, Debug)]
pub enum CmdKeeperError {
    /// No per-user configuration directory could be found.
    ConfigDirNotFound,
    /// No entry has the id.
    CommandNotFound(u64),
    /// Reading or writing the store failed; the text says why.
    Io(String),
    /// The stored data could not be read or written as JSON; the text says why.
    Json(String),
    /// The clipboard could not be used; the text says why.
    Clipboard(String),
}

/// The message shown for an error.
pub open spec fn error_text(e: CmdKeeperError) -> Seq<char> {
    match e {
        CmdKeeperError::ConfigDirNotFound => "Could not determine config directory. Please set HOME environment variable."@,
        CmdKeeperError::CommandNotFound(id) => "Command with ID "@ + decimal(id as nat) + " not found"@,
        CmdKeeperError::Io(m) => "IO error: "@ + m@,
        CmdKeeperError::Json(m) => "JSON error: "@ + m@,
        CmdKeeperError::Clipboard(m) => "Clipboard error: "@ + m@,
    }
}

impl CmdKeeperError {
    /// The message shown for this error.
    pub fn message(&self) -> (r: String)
        ensures
            r@ == error_text(*self),
    {
        match self {
            CmdKeeperError::ConfigDirNotFound => String::from_str(
                "Could not determine config directory. Please set HOME environment variable.",
            ),
            CmdKeeperError::CommandNotFound(id) => {
                let mut s = String::from_str("Command with ID ");
                let digits = decimal_text(*id);
                s.append(digits.as_str());
                s.append(" not found");
                s
            },
            CmdKeeperError::Io(m) => {
                let mut s = String::from_str("IO error: ");
                s.append(m.as_str());
                s
            },
            CmdKeeperError::Json(m) => {
                let mut s = String::from_str("JSON error: ");
                s.append(m.as_str());
                s
            },
            CmdKeeperError::Clipboard(m) => {
                let mut s = String::from_str("Clipboard error: ");
                s.append(m.as_str());
                s
            },
        }
    }
}

} // verus!
