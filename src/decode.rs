//! Decoding the engine's structured payload into a parse tree.
use vstd::prelude::*;
use vstd::slice::{slice_subrange, slice_to_vec};
use crate::tree::{empty_parse_result, empty_raw_stmt, ParseResult, ParseResultView, RawStmt, RawStmtView};
use crate::wire::{field_at, read_field, decode_failure, FieldValue, Payload};

verus! {

/// One field applied to a statement: field 1 is the node (repeated occurrences merge,
/// which for an encoded message is concatenation), 2 and 3 are its location and length;
/// other tags are skipped; a known tag with the wrong wire type fails.
pub open spec fn raw_stmt_field(acc: RawStmtView, tag: u64, v: FieldValue) -> Option<RawStmtView> {
    if tag == 1 {
        match v {
            FieldValue::Delimited(b) => Some(
                RawStmtView {
                    stmt: Some(
                        match acc.stmt {
                            Some(p) => p + b,
                            None => b,
                        },
                    ),
                    ..acc
                },
            ),
            _ => None,
        }
    } else if tag == 2 {
        match v {
            FieldValue::Varint(x) => Some(RawStmtView { stmt_location: x as i32, ..acc }),
            _ => None,
        }
    } else if tag == 3 {
        match v {
            FieldValue::Varint(x) => Some(RawStmtView { stmt_len: x as i32, ..acc }),
            _ => None,
        }
    } else {
        Some(acc)
    }
}

/// The statement that the fields of `s` make when applied to `acc`, in order.
pub open spec fn raw_stmt_from(s: Seq<u8>, acc: RawStmtView) -> Option<RawStmtView>
    decreases s.len(),
{
    if s.len() == 0 {
        Some(acc)
    } else {
        match field_at(s) {
            Some((tag, v, n)) => if 0 < n <= s.len() {
                match raw_stmt_field(acc, tag, v) {
                    Some(a) => raw_stmt_from(s.skip(n as int), a),
                    None => None,
                }
            } else {
                None
            },
            None => None,
        }
    }
}

/// The statement encoded by `s`, if it is well formed.
pub open spec fn raw_stmt_of(s: Seq<u8>) -> Option<RawStmtView> {
    raw_stmt_from(s, empty_raw_stmt())
}

/// One field applied to a tree: field 1 is the version, field 2 one more statement.
pub open spec fn parse_result_field(acc: ParseResultView, tag: u64, v: FieldValue) -> Option<
    ParseResultView,
> {
    if tag == 1 {
        match v {
            FieldValue::Varint(x) => Some(ParseResultView { version: x as i32, ..acc }),
            _ => None,
        }
    } else if tag == 2 {
        match v {
            FieldValue::Delimited(b) => match raw_stmt_of(b) {
                Some(st) => Some(ParseResultView { stmts: acc.stmts.push(st), ..acc }),
                None => None,
            },
            _ => None,
        }
    } else {
        Some(acc)
    }
}

pub open spec fn parse_result_from(s: Seq<u8>, acc: ParseResultView) -> Option<ParseResultView>
    decreases s.len(),
{
    if s.len() == 0 {
        Some(acc)
    } else {
        match field_at(s) {
            Some((tag, v, n)) => if 0 < n <= s.len() {
                match parse_result_field(acc, tag, v) {
                    Some(a) => parse_result_from(s.skip(n as int), a),
                    None => None,
                }
            } else {
                None
            },
            None => None,
        }
    }
}

/// The tree encoded by `s`, if it is well formed.
pub open spec fn parse_result_of(s: Seq<u8>) -> Option<ParseResultView> {
    parse_result_from(s, empty_parse_result())
}

fn decode_raw_stmt(bytes: &[u8]) -> (r: Result<RawStmt, prost::DecodeError>)
    ensures
        match r {
            Ok(st) => raw_stmt_of(bytes@) == Some(st@),
            Err(_) => raw_stmt_of(bytes@) is None,
        },
{
    let mut acc = RawStmt { stmt: None, stmt_location: 0, stmt_len: 0 };
    let mut pos: usize = 0;
    let len = bytes.len();
    assert(bytes@.skip(0) =~= bytes@);
    while pos < len
        invariant
            len == bytes@.len(),
            pos <= len,
            raw_stmt_from(bytes@.skip(pos as int), acc@) == raw_stmt_of(bytes@),
        decreases len - pos,
    {
        let ghost s = bytes@.skip(pos as int);
        let (tag, payload, next) = match read_field(bytes, pos) {
            Ok(x) => x,
            Err(e) => {
                return Err(e);
            },
        };
        assert(s.skip((next - pos) as int) =~= bytes@.skip(next as int));
        if tag == 1 {
            match payload {
                Payload::Delimited(a, b) => {
                    let mut node = slice_to_vec(slice_subrange(bytes, a, b));
                    match acc.stmt {
                        Some(mut prev) => {
                            prev.append(&mut node);
                            acc.stmt = Some(prev);
                        },
                        None => {
                            acc.stmt = Some(node);
                        },
                    }
                },
                _ => {
                    return Err(decode_failure("invalid wire type for statement node"));
                },
            }
        } else if tag == 2 {
            match payload {
                Payload::Varint(x) => {
                    acc.stmt_location = x as i32;
                },
                _ => {
                    return Err(decode_failure("invalid wire type for statement location"));
                },
            }
        } else if tag == 3 {
            match payload {
                Payload::Varint(x) => {
                    acc.stmt_len = x as i32;
                },
                _ => {
                    return Err(decode_failure("invalid wire type for statement length"));
                },
            }
        }
        pos = next;
    }
    assert(bytes@.skip(len as int).len() == 0);
    Ok(acc)
}

/// Decodes a parse tree from the engine's structured payload.
pub fn decode(bytes: &[u8]) -> (r: Result<ParseResult, prost::DecodeError>)
    ensures
        match r {
            Ok(t) => parse_result_of(bytes@) == Some(t@),
            Err(_) => parse_result_of(bytes@) is None,
        },
{
    let mut acc = ParseResult { version: 0, stmts: Vec::new() };
    let mut pos: usize = 0;
    let len = bytes.len();
    assert(bytes@.skip(0) =~= bytes@);
    assert(acc@.stmts =~= empty_parse_result().stmts);
    while pos < len
        invariant
            len == bytes@.len(),
            pos <= len,
            parse_result_from(bytes@.skip(pos as int), acc@) == parse_result_of(bytes@),
        decreases len - pos,
    {
        let ghost s = bytes@.skip(pos as int);
        let (tag, payload, next) = match read_field(bytes, pos) {
            Ok(x) => x,
            Err(e) => {
                return Err(e);
            },
        };
        assert(s.skip((next - pos) as int) =~= bytes@.skip(next as int));
        if tag == 1 {
            match payload {
                Payload::Varint(x) => {
                    acc.version = x as i32;
                },
                _ => {
                    return Err(decode_failure("invalid wire type for version"));
                },
            }
        } else if tag == 2 {
            match payload {
                Payload::Delimited(a, b) => {
                    let st = match decode_raw_stmt(slice_subrange(bytes, a, b)) {
                        Ok(st) => st,
                        Err(e) => {
                            return Err(e);
                        },
                    };
                    let ghost before = acc@;
                    acc.stmts.push(st);
                    assert(acc@.stmts =~= before.stmts.push(st@));
                },
                _ => {
                    return Err(decode_failure("invalid wire type for statement"));
                },
            }
        }
        pos = next;
    }
    assert(bytes@.skip(len as int).len() == 0);
    Ok(acc)
}

} // verus!
