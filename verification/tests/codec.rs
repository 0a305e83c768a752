use serde_json::Value;
use serde_jsonlines::codec::{accept_parsed, decode_line, encode_line, frame_encoded};
use serde_jsonlines::error::malformed_kind_of;
use serde_jsonlines::framing::{line_end, NEWLINE};
use serde_jsonlines::{ErrorCategory, JsonLinesError, MalformedKind};
use std::collections::BTreeMap;
use std::io::{Error, ErrorKind, Read, Write};

struct Broken;

impl Read for Broken {
    fn read(&mut self, _buf: &mut [u8]) -> std::io::Result<usize> {
        Err(Error::new(ErrorKind::ConnectionReset, "gone"))
    }
}

impl Write for Broken {
    fn write(&mut self, _buf: &[u8]) -> std::io::Result<usize> {
        Err(Error::new(ErrorKind::BrokenPipe, "closed"))
    }

    fn flush(&mut self) -> std::io::Result<()> {
        Ok(())
    }
}

#[test]
fn newline_is_a_line_feed() {
    assert_eq!(NEWLINE, b'\n');
}

#[test]
fn line_end_stops_behind_the_first_newline() {
    assert_eq!(line_end(b""), 0);
    assert_eq!(line_end(b"abc"), 3);
    assert_eq!(line_end(b"ab\ncd"), 3);
    assert_eq!(line_end(b"\n"), 1);
    assert_eq!(line_end(b"\n\n"), 1);
    assert_eq!(line_end(b"a\r\nb\n"), 3);
    assert_eq!(line_end(b"abc\n"), 4);
}

#[test]
fn encode_line_is_compact_json_and_a_newline() {
    let mut m = serde_json::Map::new();
    m.insert("name".to_string(), Value::from("Foo Bar"));
    m.insert("size".to_string(), Value::from(42));
    m.insert("on".to_string(), Value::from(true));
    let line = encode_line(&Value::Object(m)).unwrap();
    assert_eq!(line, b"{\"name\":\"Foo Bar\",\"size\":42,\"on\":true}\n");
    assert_eq!(encode_line(&Value::Null).unwrap(), b"null\n");
    assert_eq!(encode_line(&Value::from("a\nb")).unwrap(), b"\"a\\nb\"\n");
}

#[test]
fn frame_encoded_adds_one_newline() {
    assert_eq!(frame_encoded(Ok(b"[1,2]".to_vec())).unwrap(), b"[1,2]\n");
    assert_eq!(frame_encoded(Ok(Vec::new())).unwrap(), b"\n");
    assert_eq!(frame_encoded(serde_json::to_vec(&(1, "a"))).unwrap(), b"[1,\"a\"]\n");
}

#[test]
fn frame_encoded_gives_an_encoding_failure() {
    let mut bad: BTreeMap<Vec<i32>, i32> = BTreeMap::new();
    bad.insert(vec![1], 1);
    match frame_encoded(serde_json::to_vec(&bad)) {
        Err(JsonLinesError::Encode(source)) => assert!(!source.is_io()),
        other => panic!("unexpected outcome: {:?}", other),
    }
}

#[test]
fn decode_line_of_nothing_is_the_end() {
    assert_eq!(decode_line(b"").unwrap(), None);
}

#[test]
fn decode_line_parses_with_white_space_around() {
    assert_eq!(decode_line(b"  42 \r\n").unwrap(), Some(Value::from(42)));
    assert_eq!(decode_line(b"true").unwrap(), Some(Value::from(true)));
}

#[test]
fn decode_line_sorts_the_errors() {
    match decode_line(b"{\"a\": [1, 2\n") {
        Err(JsonLinesError::Malformed { kind, source }) => {
            assert_eq!(kind, MalformedKind::UnexpectedEof);
            assert!(source.is_eof());
        }
        other => panic!("unexpected outcome: {:?}", other),
    }
    match decode_line(b"{\"a\": [1, 2}\n") {
        Err(JsonLinesError::Malformed { kind, source }) => {
            assert_eq!(kind, MalformedKind::InvalidData);
            assert!(source.is_syntax());
        }
        other => panic!("unexpected outcome: {:?}", other),
    }
    match decode_line(b"\n") {
        Err(JsonLinesError::Malformed { kind, .. }) => {
            assert_eq!(kind, MalformedKind::UnexpectedEof)
        }
        other => panic!("unexpected outcome: {:?}", other),
    }
}

#[test]
fn accept_parsed_passes_a_typed_value_on() {
    let parsed = serde_json::from_str::<Vec<i32>>("[1, 2, 3]\n");
    assert_eq!(accept_parsed(parsed).unwrap(), vec![1, 2, 3]);
}

#[test]
fn accept_parsed_sorts_a_wrong_shape_as_invalid_data() {
    let parsed = serde_json::from_str::<Vec<i32>>("{\"a\": 1}\n");
    match accept_parsed(parsed) {
        Err(JsonLinesError::Malformed { kind, source }) => {
            assert_eq!(kind, MalformedKind::InvalidData);
            assert!(source.is_data());
        }
        other => panic!("unexpected outcome: {:?}", other),
    }
}

#[test]
fn accept_parsed_sorts_a_truncated_value_as_unexpected_eof() {
    let parsed = serde_json::from_str::<Vec<i32>>("[1, 2");
    let e = accept_parsed(parsed).unwrap_err();
    assert_eq!(e.malformed_kind(), Some(MalformedKind::UnexpectedEof));
}

#[test]
fn stream_failure_inside_the_codec_is_surfaced_as_it_came() {
    let parsed = serde_json::from_reader::<Broken, Value>(Broken);
    match accept_parsed(parsed) {
        Err(JsonLinesError::Io(e)) => assert_eq!(e.kind(), ErrorKind::ConnectionReset),
        other => panic!("unexpected outcome: {:?}", other),
    }
    let failed = serde_json::to_writer(Broken, &Value::from(1)).unwrap_err();
    match JsonLinesError::from_encode(failed) {
        JsonLinesError::Io(e) => assert_eq!(e.kind(), ErrorKind::BrokenPipe),
        other => panic!("unexpected outcome: {:?}", other),
    }
    let failed = serde_json::from_reader::<Broken, Value>(Broken).unwrap_err();
    let e = JsonLinesError::from_decode(failed);
    assert_eq!(e.malformed_kind(), None);
    assert!(matches!(e, JsonLinesError::Io(_)));
}

#[test]
fn every_category_has_its_kind() {
    assert_eq!(malformed_kind_of(ErrorCategory::Io), None);
    assert_eq!(
        malformed_kind_of(ErrorCategory::Syntax),
        Some(MalformedKind::InvalidData)
    );
    assert_eq!(
        malformed_kind_of(ErrorCategory::Data),
        Some(MalformedKind::InvalidData)
    );
    assert_eq!(
        malformed_kind_of(ErrorCategory::Eof),
        Some(MalformedKind::UnexpectedEof)
    );
}
