//! Errors of the scanning stage.

use vstd::prelude::*;
use vstd::string::StringExecFns;

verus! {

/// The errors a scanner can report: failing to obtain the source text, or
/// failing to split it into tokens.
#[derive(Debug)]
pub enum LexerError {
    FileReadError(String),
    TokenizationError(String),
}

impl LexerError {
    /// The human-readable description of the error.
    pub open spec fn message_view(&self) -> Seq<char> {
        match self {
            LexerError::FileReadError(msg) => "File read error: "@ + msg@,
            LexerError::TokenizationError(msg) => "Tokenization error: "@ + msg@,
        }
    }

    /// Renders the error as text.
    pub fn message(&self) -> (r: String)
        ensures
            r@ == self.message_view(),
    {
        match self {
            LexerError::FileReadError(msg) => {
                let mut s = "File read error: ".to_owned();
                s.append(msg.as_str());
                s
            },
            LexerError::TokenizationError(msg) => {
                let mut s = "Tokenization error: ".to_owned();
                s.append(msg.as_str());
                s
            },
        }
    }
}

} // verus!
