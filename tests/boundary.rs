use pg_query_boundary::{
    decode, outcome, parse, terminated, Encoding, Error, ParseCall, ParseResult, Parsed, Phase,
    RawStmt, Reply, Step,
};

const SELECT_STAR_NODE: [u8; 4] = [0x12, 0x02, 0x08, 0x01];

/// A tree as the engine encodes it for a single statement: version 130008, one
/// statement with an encoded node and a length of 8.
fn one_statement_payload() -> Vec<u8> {
    let mut raw = vec![0x0a, 0x04];
    raw.extend_from_slice(&SELECT_STAR_NODE);
    raw.extend_from_slice(&[0x18, 0x08]);
    let mut out = vec![0x08, 0xd8, 0xf7, 0x07, 0x12, raw.len() as u8];
    out.extend_from_slice(&raw);
    out
}

/// Drives a call with a canned engine reply, counting the releases it asks for.
fn run(statement: &str, encoding: Encoding, reply: Option<Reply>) -> (Result<Parsed, Error>, usize, bool) {
    let (mut call, mut step): (ParseCall, Step) = ParseCall::start(statement, encoding);
    let mut reply = reply;
    let mut releases = 0usize;
    let mut invoked = false;
    loop {
        match step {
            Step::Invoke(enc, input) => {
                assert_eq!(enc, encoding);
                assert_eq!(input.last(), Some(&0u8));
                invoked = true;
                step = call.on_reply(reply.take().expect("one reply per call"));
            }
            Step::Release => {
                releases += 1;
                step = call.on_released();
            }
            Step::Finish => break,
        }
    }
    assert_eq!(call.phase, Phase::Done);
    (call.finish(), releases, invoked)
}

#[test]
fn terminated_appends_one_nul() {
    let r = terminated("select 1").expect("no NUL byte");
    assert_eq!(r, b"select 1\0".to_vec());
}

#[test]
fn terminated_empty_statement() {
    assert_eq!(terminated("").expect("no NUL byte"), vec![0u8]);
}

#[test]
fn terminated_rejects_embedded_nul() {
    let e = terminated("sel\0ect\0").expect_err("NUL byte inside");
    assert_eq!(e.nul_position(), 3);
    assert_eq!(e.into_vec(), b"sel\0ect\0".to_vec());
}

#[test]
fn nul_statement_fails_with_conversion_before_engine() {
    let (r, releases, invoked) = run("select\0 1", Encoding::Tree, None);
    assert!(matches!(r, Err(Error::Conversion(ref e)) if e.position == 6));
    assert_eq!(releases, 0);
    assert!(!invoked);
}

#[test]
fn parse_starts_a_tree_call() {
    let (call, step) = parse("select *");
    assert_eq!(call.phase, Phase::Awaiting);
    match step {
        Step::Invoke(enc, input) => {
            assert_eq!(enc, Encoding::Tree);
            assert_eq!(input, b"select *\0".to_vec());
        }
        other => panic!("unexpected step {:?}", other),
    }
}

#[test]
fn every_call_releases_exactly_once() {
    for i in 0..500u32 {
        let statement = format!("select {}", i);
        let reply = match i % 3 {
            0 => Reply::Failed(format!("syntax error at position {}", i)),
            1 => Reply::Text("{\"version\":130008,\"stmts\":[]}".to_string()),
            _ => Reply::Tree(vec![0x08, 0xff]),
        };
        let encoding = if i % 3 == 1 { Encoding::Text } else { Encoding::Tree };
        let (_, releases, invoked) = run(&statement, encoding, Some(reply));
        assert!(invoked);
        assert_eq!(releases, 1);
    }
}

#[test]
fn engine_error_becomes_parse_error() {
    let message = "syntax error at or near \"select\"";
    let (r, releases, _) = run("select select", Encoding::Tree, Some(Reply::Failed(message.to_string())));
    match r {
        Err(Error::Parse(m)) => {
            assert!(!m.is_empty());
            assert_eq!(m, message);
        }
        other => panic!("unexpected outcome {:?}", other),
    }
    assert_eq!(releases, 1);
}

#[test]
fn text_reply_is_returned_as_text() {
    let text = "{\"version\":130008,\"stmts\":[{\"stmt\":{}}]}";
    let (r, _, _) = run("select * from items", Encoding::Text, Some(Reply::Text(text.to_string())));
    match r {
        Ok(Parsed::Text(t)) => assert_eq!(t, text),
        other => panic!("unexpected outcome {:?}", other),
    }
}

#[test]
fn select_star_tree_has_one_statement() {
    let (r, releases, _) = run("select *", Encoding::Tree, Some(Reply::Tree(one_statement_payload())));
    assert_eq!(releases, 1);
    match r {
        Ok(Parsed::Tree(t)) => {
            assert_eq!(t.statement_count(), 1);
            assert_eq!(t.version, 130008);
            assert_eq!(
                t.stmts[0],
                RawStmt { stmt: Some(SELECT_STAR_NODE.to_vec()), stmt_location: 0, stmt_len: 8 }
            );
        }
        other => panic!("unexpected outcome {:?}", other),
    }
}

#[test]
fn equal_payloads_decode_to_equal_trees() {
    let a = decode(&one_statement_payload()).expect("well formed");
    let b = decode(&one_statement_payload()).expect("well formed");
    assert_eq!(a, b);
}

#[test]
fn empty_payload_is_empty_tree() {
    let t = decode(&[]).expect("well formed");
    assert_eq!(t, ParseResult { version: 0, stmts: vec![] });
}

#[test]
fn multibyte_varint_version() {
    let t = decode(&[0x08, 0x96, 0x01]).expect("well formed");
    assert_eq!(t.version, 150);
}

#[test]
fn version_truncates_to_32_bits() {
    let t = decode(&[0x08, 0xff, 0xff, 0xff, 0xff, 0xff, 0xff, 0xff, 0xff, 0xff, 0x01]).expect("well formed");
    assert_eq!(t.version, -1);
}

#[test]
fn repeated_node_fields_merge() {
    let raw = [0x0a, 0x01, 0xaa, 0x0a, 0x02, 0xbb, 0xcc, 0x10, 0x05];
    let mut payload = vec![0x12, raw.len() as u8];
    payload.extend_from_slice(&raw);
    let t = decode(&payload).expect("well formed");
    assert_eq!(
        t.stmts,
        vec![RawStmt { stmt: Some(vec![0xaa, 0xbb, 0xcc]), stmt_location: 5, stmt_len: 0 }]
    );
}

#[test]
fn unknown_fields_are_skipped() {
    let payload = [
        0x18, 0x07, // field 3, varint
        0x21, 1, 2, 3, 4, 5, 6, 7, 8, // field 4, fixed64
        0x2d, 1, 2, 3, 4, // field 5, fixed32
        0x32, 0x01, 0x00, // field 6, delimited
        0x08, 0x02,
    ];
    let t = decode(&payload).expect("well formed");
    assert_eq!(t, ParseResult { version: 2, stmts: vec![] });
}

#[test]
fn statements_keep_their_order() {
    let payload = [0x12, 0x02, 0x10, 0x01, 0x12, 0x02, 0x10, 0x02];
    let t = decode(&payload).expect("well formed");
    assert_eq!(t.stmts.len(), 2);
    assert_eq!(t.stmts[0].stmt_location, 1);
    assert_eq!(t.stmts[1].stmt_location, 2);
}

#[test]
fn truncated_varint_is_decode_error() {
    assert!(decode(&[0x08, 0x96]).is_err());
}

#[test]
fn overlong_varint_is_decode_error() {
    assert!(decode(&[0x08, 0xff, 0xff, 0xff, 0xff, 0xff, 0xff, 0xff, 0xff, 0xff, 0x02]).is_err());
}

#[test]
fn group_wire_type_is_decode_error() {
    assert!(decode(&[0x0b]).is_err());
}

#[test]
fn tag_zero_is_decode_error() {
    assert!(decode(&[0x00, 0x01]).is_err());
}

#[test]
fn wrong_wire_type_for_version_is_decode_error() {
    assert!(decode(&[0x0a, 0x00]).is_err());
}

#[test]
fn delimited_past_end_is_decode_error() {
    assert!(decode(&[0x12, 0x05, 0x10]).is_err());
}

#[test]
fn malformed_statement_is_decode_error() {
    assert!(decode(&[0x12, 0x01, 0x10]).is_err());
}

#[test]
fn bad_payload_fails_with_decode_and_still_releases() {
    let (r, releases, _) = run("select 1", Encoding::Tree, Some(Reply::Tree(vec![0x12, 0x05])));
    assert!(matches!(r, Err(Error::Decode(_))));
    assert_eq!(releases, 1);
}

#[test]
fn outcome_of_tree_reply() {
    match outcome(Reply::Tree(one_statement_payload())) {
        Ok(Parsed::Tree(t)) => assert_eq!(t.stmts.len(), 1),
        other => panic!("unexpected outcome {:?}", other),
    }
}
