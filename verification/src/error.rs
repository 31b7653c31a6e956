//! Error taxonomy for the bootstrap core.
//!
//! Callers can tell configuration problems (detected before any I/O)
//! from network failures, from malformed documents, and from exhaustion
//! of the fallback source list.

use vstd::prelude::*;

verus! {

/// A typed failure of the bootstrap core.
#[derive(Debug)]
pub enum TorError {
    /// A malformed URL or an unrecognized scheme, caught before any
    /// connection attempt.
    Configuration(String),
    /// A connection, read/write or timeout failure.
    Network(String),
    /// A malformed primary or secondary directory document.
    Parse(String),
    /// Every fallback directory source was tried and none succeeded,
    /// with no per-source error left to report.
    NoSources,
}

impl TorError {
    /// True iff this error reports a configuration problem.
    pub fn is_configuration(&self) -> (r: bool)
        ensures
            r == (self is Configuration),
    {
        match self {
            TorError::Configuration(_) => true,
            _ => false,
        }
    }

    /// True iff this error reports a network-layer failure.
    pub fn is_network(&self) -> (r: bool)
        ensures
            r == (self is Network),
    {
        match self {
            TorError::Network(_) => true,
            _ => false,
        }
    }

    /// True iff this error reports a malformed document.
    pub fn is_parse(&self) -> (r: bool)
        ensures
            r == (self is Parse),
    {
        match self {
            TorError::Parse(_) => true,
            _ => false,
        }
    }
}

} // verus!
