//! Errors of configuration loading.

use vstd::prelude::*;
use vstd::string::StringExecFns;

verus! {

/// Why a configuration source could not be turned into a definition.
///
/// `FileNotFoundError` carries the path of the absent source; it is the one
/// recoverable kind, answered by falling back to built-in defaults.
/// `ParseError` carries the parser's message for a source that was present
/// but malformed. `IOError` carries the message of a read failure other
/// than absence.
#[derive(Debug)]
pub enum ConfigError {
    FileNotFoundError(String),
    ParseError(String),
    IOError(String),
}

impl ConfigError {
    /// The human-readable description of the error.
    pub open spec fn message_view(&self) -> Seq<char> {
        match self {
            ConfigError::FileNotFoundError(path) => "File not found: "@ + path@,
            ConfigError::ParseError(error) => "Parse error: "@ + error@,
            ConfigError::IOError(error) => "IO error: "@ + error@,
        }
    }

    /// Renders the error as text.
    pub fn message(&self) -> (r: String)
        ensures
            r@ == self.message_view(),
    {
        match self {
            ConfigError::FileNotFoundError(path) => {
                let mut s = "File not found: ".to_owned();
                s.append(path.as_str());
                s
            },
            ConfigError::ParseError(error) => {
                let mut s = "Parse error: ".to_owned();
                s.append(error.as_str());
                s
            },
            ConfigError::IOError(error) => {
                let mut s = "IO error: ".to_owned();
                s.append(error.as_str());
                s
            },
        }
    }
}

} // verus!
