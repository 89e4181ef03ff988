//! Configuration and keyword-resolution layer for the MooLang toy compiler.
//!
//! A language definition maps each locale (such as "en" or "es") to a full
//! set of keyword spellings. User-supplied partial definitions are merged
//! with built-in defaults, and a per-locale reverse map from spelling to
//! lexical category answers the scanner's keyword queries.

pub mod assoc;
pub mod config_errors;
pub mod dynamic_keywords;
pub mod file_reader;
pub mod file_reader_errors;
pub mod keyword_manager;
pub mod language_config;
pub mod laws;
pub mod lexer_errors;
pub mod tokens;

use vstd::prelude::*;

verus! {

/// Compares two string slices by their character sequences.
pub fn str_eq(a: &str, b: &str) -> (r: bool)
    ensures
        r == (a@ == b@),
{
    let owned_a: String = a.to_owned();
    let owned_b: String = b.to_owned();
    owned_a == owned_b
}

} // verus!
