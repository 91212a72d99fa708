//! The error taxonomy shared by every layer of the library.
//!
//! Each layer wraps an underlying failure into one of these kinds and returns
//! it to its caller; no layer retries or aborts.

use vstd::prelude::*;

verus! {

/// Every failure the library can report.
///
/// - `ParseError`: a malformed or missing field while decoding a conversation.
/// - `IoError`: a filesystem failure for the input file or the index directory.
/// - `IndexError`: an engine-internal failure building, committing, or reading
///   the index, including a stored document that cannot be decoded back.
/// - `QuerySyntaxError`: a query string the query grammar does not accept.
#[derive(Debug, Clone)]
pub enum Error {
    ParseError(String),
    IoError(String),
    IndexError(String),
    QuerySyntaxError(String),
}

impl Error {
    /// The human-readable description carried by the error.
    pub fn describe(&self) -> (r: String)
        ensures
            r@ == self.spec_describe(),
    {
        match self {
            Error::ParseError(m) => m.clone(),
            Error::IoError(m) => m.clone(),
            Error::IndexError(m) => m.clone(),
            Error::QuerySyntaxError(m) => m.clone(),
        }
    }

    /// The description as a mathematical sequence of characters.
    pub open spec fn spec_describe(&self) -> Seq<char> {
        match self {
            Error::ParseError(m) => m@,
            Error::IoError(m) => m@,
            Error::IndexError(m) => m@,
            Error::QuerySyntaxError(m) => m@,
        }
    }
}

} // verus!
