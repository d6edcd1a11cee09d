//! The decoded parse tree: one top-level message holding the statements in order.
use vstd::prelude::*;

verus! {

/// One parsed statement: its node, and where it stands in the statement text.
#[derive(Debug, PartialEq)]
pub struct RawStmt {
    /// The statement's node message, in its encoded form.
    pub stmt: Option<Vec<u8>>,
    pub stmt_location: i32,
    pub stmt_len: i32,
}

/// The whole tree: the engine's format version and the statements, in order.
#[derive(Debug, PartialEq)]
pub struct ParseResult {
    pub version: i32,
    pub stmts: Vec<RawStmt>,
}

pub struct RawStmtView {
    pub stmt: Option<Seq<u8>>,
    pub stmt_location: i32,
    pub stmt_len: i32,
}

pub struct ParseResultView {
    pub version: i32,
    pub stmts: Seq<RawStmtView>,
}

impl View for RawStmt {
    type V = RawStmtView;

    open spec fn view(&self) -> RawStmtView {
        RawStmtView {
            stmt: match self.stmt {
                Some(v) => Some(v@),
                None => None,
            },
            stmt_location: self.stmt_location,
            stmt_len: self.stmt_len,
        }
    }
}

impl View for ParseResult {
    type V = ParseResultView;

    open spec fn view(&self) -> ParseResultView {
        ParseResultView {
            version: self.version,
            stmts: self.stmts@.map_values(|s: RawStmt| s@),
        }
    }
}

/// A statement with every field at its default.
pub open spec fn empty_raw_stmt() -> RawStmtView {
    RawStmtView { stmt: None, stmt_location: 0, stmt_len: 0 }
}

/// A tree with every field at its default.
pub open spec fn empty_parse_result() -> ParseResultView {
    ParseResultView { version: 0, stmts: Seq::empty() }
}

impl ParseResult {
    /// Number of statements in the tree.
    pub fn statement_count(&self) -> (r: usize)
        ensures
            r == self@.stmts.len(),
    {
        self.stmts.len()
    }
}

} // verus!
