//! Error taxonomy of the core: requests rejected before execution
//! (validation and forbidden-statement errors), engine failures surfaced
//! verbatim, and encoding failures.

use vstd::prelude::*;

verus! {

/// Why a call into the core failed.
///
/// Validation and forbidden-statement errors are produced before any
/// statement reaches the engine; engine errors carry the engine's own
/// message unchanged.
#[derive(Debug, Clone, PartialEq, Eq)]
pub enum CoreError {
    /// A structured request named an unknown operation, interval or method.
    Validation(String),
    /// The SQL text contained a denylisted verb.
    Forbidden(String),
    /// The engine rejected or failed the statement; the message is verbatim.
    Engine(String),
    /// A payload was not valid UTF-8 where text was required.
    Encoding(String),
}

impl CoreError {
    /// The human-readable message carried by the error.
    pub fn message(&self) -> (r: String)
        ensures
            r@ == self.message_model(),
    {
        match self {
            CoreError::Validation(m) => m.clone(),
            CoreError::Forbidden(m) => m.clone(),
            CoreError::Engine(m) => m.clone(),
            CoreError::Encoding(m) => m.clone(),
        }
    }

    /// Spec-level view of the carried message.
    pub open spec fn message_model(&self) -> Seq<char> {
        match self {
            CoreError::Validation(m) => m@,
            CoreError::Forbidden(m) => m@,
            CoreError::Engine(m) => m@,
            CoreError::Encoding(m) => m@,
        }
    }
}

/// Structured description of a failed query, as reported to clients.
#[derive(Debug, Clone, PartialEq, Eq)]
pub struct QueryError {
    pub message: String,
    pub code: Option<String>,
    pub line: Option<i32>,
    pub column: Option<i32>,
}

} // verus!
