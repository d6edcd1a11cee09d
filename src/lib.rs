//! Boundary layer between SQL text and an external PostgreSQL parsing engine.
//!
//! The library prepares the engine's input, decides each call's outcome from copies of
//! the engine's result, decodes the structured parse tree, and tracks the engine
//! result's release so that every call that reaches the engine releases it once.
use vstd::prelude::*;
use vstd::string::StringSliceAdditionalSpecFns;

pub mod error;
pub mod request;
pub mod tree;
pub mod wire;
pub mod decode;
pub mod call;

pub use call::{outcome, Encoding, ParseCall, Parsed, Phase, Reply, Step};
pub use decode::decode;
pub use error::{Error, NulError};
pub use request::terminated;
pub use tree::{ParseResult, RawStmt};

verus! {

/// Starts a call for the structured-message tree, the default encoding.
pub fn parse(statement: &str) -> (r: (ParseCall, Step))
    ensures
        call::started(statement.spec_bytes(), Encoding::Tree, r.0, r.1),
{
    ParseCall::start(statement, Encoding::Tree)
}

} // verus!
