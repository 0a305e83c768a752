use serde::ser::SerializeStruct;
use serde::{Serialize, Serializer};
use serde_json::Value;
use serde_jsonlines::{JsonLinesError, JsonLinesWriter};
use std::collections::BTreeMap;

fn structure(name: &str, size: i32, on: bool) -> Value {
    let mut m = serde_json::Map::new();
    m.insert("name".to_string(), Value::from(name));
    m.insert("size".to_string(), Value::from(size));
    m.insert("on".to_string(), Value::from(on));
    Value::Object(m)
}

fn point(x: i32, y: i32) -> Value {
    let mut m = serde_json::Map::new();
    m.insert("x".to_string(), Value::from(x));
    m.insert("y".to_string(), Value::from(y));
    Value::Object(m)
}

struct Structure {
    name: String,
    size: i32,
    on: bool,
}

impl Serialize for Structure {
    fn serialize<S: Serializer>(&self, serializer: S) -> Result<S::Ok, S::Error> {
        let mut s = serializer.serialize_struct("Structure", 3)?;
        s.serialize_field("name", &self.name)?;
        s.serialize_field("size", &self.size)?;
        s.serialize_field("on", &self.on)?;
        s.end()
    }
}

fn text(writer: JsonLinesWriter<Vec<u8>>) -> String {
    String::from_utf8(writer.into_inner()).unwrap()
}

#[test]
fn json_lines_writer_test_write_one() {
    let mut writer = JsonLinesWriter::new(Vec::new());
    writer.write(&structure("Foo Bar", 42, true)).unwrap();
    writer.flush().unwrap();
    assert_eq!(
        text(writer),
        "{\"name\":\"Foo Bar\",\"size\":42,\"on\":true}\n"
    );
}

#[test]
fn json_lines_writer_test_write_two() {
    let mut writer = JsonLinesWriter::new(Vec::new());
    writer.write(&structure("Foo Bar", 42, true)).unwrap();
    writer.write(&point(69, 105)).unwrap();
    writer.flush().unwrap();
    assert_eq!(
        text(writer),
        "{\"name\":\"Foo Bar\",\"size\":42,\"on\":true}\n{\"x\":69,\"y\":105}\n"
    );
}

#[test]
fn test_write_all() {
    let mut writer = JsonLinesWriter::new(Vec::new());
    writer
        .write_all(&[
            structure("Foo Bar", 42, true),
            structure("Quux", 23, false),
            structure("Gnusto Cleesh", 17, true),
        ])
        .unwrap();
    writer.flush().unwrap();
    assert_eq!(
        text(writer),
        "{\"name\":\"Foo Bar\",\"size\":42,\"on\":true}\n{\"name\":\"Quux\",\"size\":23,\"on\":false}\n{\"name\":\"Gnusto Cleesh\",\"size\":17,\"on\":true}\n"
    );
}

#[test]
fn json_lines_writer_test_write_one_then_write_inner() {
    let mut writer = JsonLinesWriter::new(Vec::new());
    writer.write(&structure("Foo Bar", 42, true)).unwrap();
    writer.flush().unwrap();
    let mut out: Vec<u8> = writer.into_inner();
    out.extend_from_slice(b"Not JSON\n");
    assert_eq!(
        String::from_utf8(out).unwrap(),
        "{\"name\":\"Foo Bar\",\"size\":42,\"on\":true}\nNot JSON\n"
    );
}

#[test]
fn test_write_all_none() {
    let mut writer = JsonLinesWriter::new(Vec::new());
    writer.write_all(&[]).unwrap();
    writer.flush().unwrap();
    assert_eq!(text(writer), "");
}

#[test]
fn json_lines_writer_test_write_then_back_up_then_write() {
    let mut writer = JsonLinesWriter::new(Vec::new());
    writer.write(&structure("Foo Bar", 42, true)).unwrap();
    writer.flush().unwrap();
    let out: &mut Vec<u8> = writer.get_mut();
    out.clear();
    writer.write(&structure("Gnusto Cleesh", 17, true)).unwrap();
    writer.flush().unwrap();
    assert_eq!(
        text(writer),
        "{\"name\":\"Gnusto Cleesh\",\"size\":17,\"on\":true}\n"
    );
}

#[test]
fn write_encoded_takes_a_typed_record() {
    let mut writer = JsonLinesWriter::new(Vec::new());
    let first = Structure {
        name: "Foo Bar".into(),
        size: 42,
        on: true,
    };
    let second = Structure {
        name: "Quux".into(),
        size: 23,
        on: false,
    };
    writer.write_encoded(serde_json::to_vec(&first)).unwrap();
    writer.write_encoded(serde_json::to_vec(&second)).unwrap();
    assert_eq!(
        text(writer),
        "{\"name\":\"Foo Bar\",\"size\":42,\"on\":true}\n{\"name\":\"Quux\",\"size\":23,\"on\":false}\n"
    );
}

#[test]
fn write_encoded_leaves_the_output_alone_on_failure() {
    let mut writer = JsonLinesWriter::new(b"kept\n".to_vec());
    let mut bad: BTreeMap<(i32, i32), i32> = BTreeMap::new();
    bad.insert((1, 2), 3);
    let r = writer.write_encoded(serde_json::to_vec(&bad));
    assert!(matches!(r, Err(JsonLinesError::Encode(_))));
    assert_eq!(text(writer), "kept\n");
}

#[test]
fn write_escapes_newlines_in_strings() {
    let mut writer = JsonLinesWriter::new(Vec::new());
    writer.write(&Value::from("two\nlines\r\n")).unwrap();
    writer.write(&Value::from(1)).unwrap();
    let out = text(writer);
    assert_eq!(out, "\"two\\nlines\\r\\n\"\n1\n");
    assert_eq!(out.bytes().filter(|b| *b == b'\n').count(), 2);
}

#[test]
fn write_appends_behind_what_is_there() {
    let mut writer = JsonLinesWriter::new(Vec::new());
    writer
        .write_all(&[structure("Foo Bar", 42, true), structure("Quux", 23, false)])
        .unwrap();
    writer
        .write_all(&[
            structure("Gnusto Cleesh", 17, true),
            structure("baz", 69105, false),
        ])
        .unwrap();
    let twice = text(writer);
    let mut writer = JsonLinesWriter::new(Vec::new());
    writer
        .write_all(&[
            structure("Foo Bar", 42, true),
            structure("Quux", 23, false),
            structure("Gnusto Cleesh", 17, true),
            structure("baz", 69105, false),
        ])
        .unwrap();
    assert_eq!(twice, text(writer));
    assert_eq!(
        twice,
        "{\"name\":\"Foo Bar\",\"size\":42,\"on\":true}\n{\"name\":\"Quux\",\"size\":23,\"on\":false}\n{\"name\":\"Gnusto Cleesh\",\"size\":17,\"on\":true}\n{\"name\":\"baz\",\"size\":69105,\"on\":false}\n"
    );
}

#[test]
fn write_all_of_nothing_changes_nothing() {
    let mut writer = JsonLinesWriter::new(Vec::new());
    writer
        .write_all(&[structure("Foo Bar", 42, true), structure("Quux", 23, false)])
        .unwrap();
    let before = writer.get_ref().clone();
    writer.write_all(&[]).unwrap();
    assert_eq!(*writer.get_ref(), before);
}

#[test]
fn written_lines_read_back() {
    let values = vec![
        structure("Foo Bar", 42, true),
        Value::from("line\nbreak"),
        Value::Null,
        Value::Array(vec![Value::from(-3), Value::from(true)]),
        point(0, -1),
    ];
    let mut writer = JsonLinesWriter::new(Vec::new());
    writer.write_all(&values).unwrap();
    let out = writer.into_inner();
    assert_eq!(out.iter().filter(|b| **b == b'\n').count(), values.len());
    let back = serde_jsonlines::JsonLinesReader::new(out.as_slice())
        .iter::<Value>()
        .collect()
        .unwrap();
    assert_eq!(back, values);
}
