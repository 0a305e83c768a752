use serde_json::Value;
use serde_jsonlines::framing::{strip_line_ending, take_line};
use serde_jsonlines::AsyncJsonLinesWriter;

fn structure(name: &str, size: i32, on: bool) -> Value {
    let mut m = serde_json::Map::new();
    m.insert("name".to_string(), Value::from(name));
    m.insert("size".to_string(), Value::from(size));
    m.insert("on".to_string(), Value::from(on));
    Value::Object(m)
}

fn point(x: i32, y: i32) -> Value {
    let mut m = serde_json::Map::new();
    m.insert("x".to_string(), Value::from(x));
    m.insert("y".to_string(), Value::from(y));
    Value::Object(m)
}

fn text(writer: AsyncJsonLinesWriter<Vec<u8>>) -> String {
    String::from_utf8(writer.into_inner()).unwrap()
}

#[test]
fn async_json_lines_writer_test_write_one() {
    let mut writer = AsyncJsonLinesWriter::new(Vec::new());
    writer.write(&structure("Foo Bar", 42, true)).unwrap();
    writer.flush().unwrap();
    assert_eq!(
        text(writer),
        "{\"name\":\"Foo Bar\",\"size\":42,\"on\":true}\n"
    );
}

#[test]
fn async_json_lines_writer_test_write_two() {
    let mut writer = AsyncJsonLinesWriter::new(Vec::new());
    writer.write(&structure("Foo Bar", 42, true)).unwrap();
    writer.write(&point(69, 105)).unwrap();
    writer.flush().unwrap();
    assert_eq!(
        text(writer),
        "{\"name\":\"Foo Bar\",\"size\":42,\"on\":true}\n{\"x\":69,\"y\":105}\n"
    );
}

#[test]
fn async_json_lines_writer_test_write_one_then_write_inner() {
    let mut writer = AsyncJsonLinesWriter::new(Vec::new());
    writer.write(&structure("Foo Bar", 42, true)).unwrap();
    writer.flush().unwrap();
    let mut out: Vec<u8> = writer.into_inner();
    out.extend_from_slice(b"Not JSON\n");
    assert_eq!(
        String::from_utf8(out).unwrap(),
        "{\"name\":\"Foo Bar\",\"size\":42,\"on\":true}\nNot JSON\n"
    );
}

#[test]
fn async_json_lines_writer_test_write_then_back_up_then_write() {
    let mut writer = AsyncJsonLinesWriter::new(Vec::new());
    writer.write(&structure("Foo Bar", 42, true)).unwrap();
    writer.flush().unwrap();
    let out: &mut Vec<u8> = writer.get_mut();
    out.clear();
    writer.write(&structure("Gnusto Cleesh", 17, true)).unwrap();
    writer.flush().unwrap();
    assert_eq!(
        text(writer),
        "{\"name\":\"Gnusto Cleesh\",\"size\":17,\"on\":true}\n"
    );
}

#[test]
fn async_writer_takes_an_encoded_record() {
    let mut writer = AsyncJsonLinesWriter::new(Vec::new());
    writer
        .write_encoded(serde_json::to_vec(&("a", 1, [true, false])))
        .unwrap();
    assert_eq!(text(writer), "[\"a\",1,[true,false]]\n");
}

#[test]
fn take_line_walks_through_the_input() {
    let mut input: &[u8] = b"one\ntwo\r\n\nlast";
    assert_eq!(take_line(&mut input), b"one\n");
    assert_eq!(input, b"two\r\n\nlast");
    assert_eq!(take_line(&mut input), b"two\r\n");
    assert_eq!(take_line(&mut input), b"\n");
    assert_eq!(take_line(&mut input), b"last");
    assert_eq!(input, b"");
    assert_eq!(take_line(&mut input), b"");
    assert_eq!(take_line(&mut input), b"");
    assert_eq!(input, b"");
}

#[test]
fn strip_line_ending_takes_one_ending_off() {
    assert_eq!(strip_line_ending(b"abc\n"), b"abc");
    assert_eq!(strip_line_ending(b"abc\r\n"), b"abc");
    assert_eq!(strip_line_ending(b"abc"), b"abc");
    assert_eq!(strip_line_ending(b"abc\r"), b"abc\r");
    assert_eq!(strip_line_ending(b"abc\n\n"), b"abc\n");
    assert_eq!(strip_line_ending(b"abc\r\r\n"), b"abc\r");
    assert_eq!(strip_line_ending(b"\n"), b"");
    assert_eq!(strip_line_ending(b"\r\n"), b"");
    assert_eq!(strip_line_ending(b""), b"");
}
