//! The record codec: one value to one line of compact JSON and back.
//!
//! The JSON itself is the work of `serde_json`.  What this module adds is the
//! protocol around it: the newline that ends a record, the empty read that
//! means the end of the input, and the sorting of the codec's errors.

use crate::error::{decode_failure, encode_failure, JsonLinesError};
use crate::framing::{framed, NEWLINE};
use vstd::prelude::*;

verus! {

/// A JSON value of `serde_json`, which Verus carries without looking inside.
#[verifier::external_type_specification]
#[verifier::external_body]
pub struct ExJsonValue(serde_json::Value);

/// What `serde_json::from_slice` returns for `text` when asked for a
/// `serde_json::Value`.  The parser reads nothing but the text, so the same
/// text always has the same answer; which answer that is, is not said here.
pub uninterp spec fn json_parse(text: Seq<u8>) -> Result<serde_json::Value, serde_json::Error>;

/// What `serde_json::to_vec` returns for `value`.  The encoder reads nothing
/// but the value, so the same value always has the same answer; which answer
/// that is, is not said here.
pub uninterp spec fn json_text(value: serde_json::Value) -> Result<Seq<u8>, serde_json::Error>;

/// Calls `serde_json::from_slice`, which parses `bytes` as one JSON value or
/// says why it cannot.
///
/// Not proved: that the answer is `json_parse` of the bytes, which is to say
/// that it depends on the bytes alone.
#[verifier::external_body]
pub(crate) fn from_slice(bytes: &[u8]) -> (r: Result<serde_json::Value, serde_json::Error>)
    ensures
        r == json_parse(bytes@),
{
    serde_json::from_slice::<serde_json::Value>(bytes)
}

/// Calls `serde_json::to_vec`, which writes `value` as compact JSON or says
/// why it cannot.
///
/// Not proved: that the answer is `json_text` of the value, which is to say
/// that it depends on the value alone.
#[verifier::external_body]
pub(crate) fn to_vec(value: &serde_json::Value) -> (r: Result<Vec<u8>, serde_json::Error>)
    ensures
        bytes_of(r) == json_text(*value),
{
    serde_json::to_vec(value)
}

/// What becomes of the codec's answer to an encoding request: the JSON with a
/// newline behind it, or the error as an encoding failure.
pub open spec fn framed_result(encoded: Result<Seq<u8>, serde_json::Error>) -> Result<
    Seq<u8>,
    JsonLinesError,
> {
    match encoded {
        Ok(json) => Ok(framed(json)),
        Err(e) => Err(encode_failure(e)),
    }
}

/// What becomes of the codec's answer to a parsing request: the value, or
/// the error as a malformed record.
pub open spec fn accepted<T>(parsed: Result<T, serde_json::Error>) -> Result<T, JsonLinesError> {
    match parsed {
        Ok(value) => Ok(value),
        Err(e) => Err(decode_failure(e)),
    }
}

/// What one read that returned `line` yields: nothing at the end of the
/// input, else the value that the line holds or the reason why it holds
/// none.
pub open spec fn decoded_line(line: Seq<u8>) -> Result<Option<serde_json::Value>, JsonLinesError> {
    if line.len() == 0 {
        Ok(None)
    } else {
        match json_parse(line) {
            Ok(value) => Ok(Some(value)),
            Err(e) => Err(decode_failure(e)),
        }
    }
}

/// What one pull of a stream of lines yields: nothing when the stream has
/// ended, else what the line holds.
pub open spec fn decoded_next(line: Option<Seq<u8>>) -> Option<
    Result<serde_json::Value, JsonLinesError>,
> {
    match line {
        None => None,
        Some(text) => Some(accepted(json_parse(text))),
    }
}

/// The bytes of a buffer in a result, as a sequence.
pub open spec fn bytes_of<E>(r: Result<Vec<u8>, E>) -> Result<Seq<u8>, E> {
    match r {
        Ok(bytes) => Ok(bytes@),
        Err(e) => Err(e),
    }
}

/// Ends an encoded value with a newline, or turns the codec's error into the
/// crate's.  No byte is produced for a value that could not be encoded.
pub fn frame_encoded(encoded: Result<Vec<u8>, serde_json::Error>) -> (r: Result<
    Vec<u8>,
    JsonLinesError,
>)
    ensures
        bytes_of(r) == framed_result(bytes_of(encoded)),
{
    match encoded {
        Ok(mut json) => {
            json.push(NEWLINE);
            Ok(json)
        },
        Err(e) => Err(JsonLinesError::from_encode(e)),
    }
}

/// Passes a parsed value on, or turns the codec's error into the crate's.
pub fn accept_parsed<T>(parsed: Result<T, serde_json::Error>) -> (r: Result<T, JsonLinesError>)
    ensures
        r == accepted(parsed),
{
    match parsed {
        Ok(value) => Ok(value),
        Err(e) => Err(JsonLinesError::from_decode(e)),
    }
}

/// Encodes `value` as one line: compact JSON and a newline.
pub fn encode_line(value: &serde_json::Value) -> (r: Result<Vec<u8>, JsonLinesError>)
    ensures
        bytes_of(r) == framed_result(json_text(*value)),
{
    frame_encoded(to_vec(value))
}

/// What one read that returned `line` yields where `parsed` is the parser's
/// answer for the line: nothing at the end of the input, else the value or
/// the reason why there is none.
pub open spec fn decoded_with<T>(line: Seq<u8>, parsed: Result<T, serde_json::Error>) -> Result<
    Option<T>,
    JsonLinesError,
> {
    if line.len() == 0 {
        Ok(None)
    } else {
        match parsed {
            Ok(value) => Ok(Some(value)),
            Err(e) => Err(decode_failure(e)),
        }
    }
}

/// Decodes what one read of a line returned, with the parser that the caller
/// brings for its record type.
///
/// No bytes mean the end of the input, which is no error, and the parser is
/// not asked.  Anything else is handed to the parser once.
pub fn decode_with<T, F: FnOnce(&[u8]) -> Result<T, serde_json::Error>>(line: &[u8], parse: F) -> (r:
    Result<Option<T>, JsonLinesError>)
    requires
        parse.requires((line,)),
    ensures
        line@.len() == 0 ==> r == Ok::<Option<T>, JsonLinesError>(None),
        line@.len() > 0 ==> exists|parsed: Result<T, serde_json::Error>|
            parse.ensures((line,), parsed) && r == decoded_with(line@, parsed),
{
    if line.len() == 0 {
        Ok(None)
    } else {
        let parsed = parse(line);
        let ghost answer = parsed;
        let r = match accept_parsed(parsed) {
            Ok(value) => Ok(Some(value)),
            Err(e) => Err(e),
        };
        assert(parse.ensures((line,), answer) && r == decoded_with(line@, answer));
        r
    }
}

/// Decodes what one read of a line returned.
///
/// No bytes mean the end of the input, which is no error.  Anything else is
/// parsed as one JSON value, the newline and other white space around it left
/// to the parser.
pub fn decode_line(line: &[u8]) -> (r: Result<Option<serde_json::Value>, JsonLinesError>)
    ensures
        r == decoded_line(line@),
{
    if line.len() == 0 {
        Ok(None)
    } else {
        match accept_parsed(from_slice(line)) {
            Ok(value) => Ok(Some(value)),
            Err(e) => Err(e),
        }
    }
}

/// The bytes of a line that may be missing, as a sequence.
pub open spec fn line_of(line: Option<&[u8]>) -> Option<Seq<u8>> {
    match line {
        Some(text) => Some(text@),
        None => None,
    }
}

/// Decodes what one pull of a stream of lines returned.
///
/// No line means that the stream has ended.  A line, empty or not, is parsed
/// as one JSON value.
pub fn decode_next(line: Option<&[u8]>) -> (r: Option<Result<serde_json::Value, JsonLinesError>>)
    ensures
        r == decoded_next(line_of(line)),
{
    match line {
        None => None,
        Some(text) => Some(accept_parsed(from_slice(text))),
    }
}

} // verus!
