//! The errors of the crate.
//!
//! A failure is one of three things: the underlying stream failed, a line
//! did not parse as the wanted value, or a value has no JSON form.  The first
//! carries the stream's error as it came, the other two carry the error of
//! the JSON codec.

use vstd::prelude::*;

verus! {

/// The error type of `serde_json`, which Verus carries without looking
/// inside.
#[verifier::external_type_specification]
#[verifier::external_body]
pub struct ExJsonError(serde_json::Error);

/// The error type of `std::io`, which Verus carries without looking inside.
#[verifier::external_type_specification]
#[verifier::external_body]
pub struct ExIoError(std::io::Error);

/// How the JSON codec sorts its own errors.
#[derive(Clone, Copy, Debug, PartialEq, Eq, Structural)]
pub enum ErrorCategory {
    /// Bytes could not be read or written.
    Io,
    /// The text is not JSON.
    Syntax,
    /// The text is JSON of the wrong shape, or the value has no JSON form.
    Data,
    /// The text ended inside a JSON value.
    Eof,
}

/// Why a line is no record.
#[derive(Clone, Copy, Debug, PartialEq, Eq, Structural)]
pub enum MalformedKind {
    /// The JSON value is incomplete: the line ended inside it.
    UnexpectedEof,
    /// The JSON is wrong, or does not have the shape of the wanted type.
    InvalidData,
}

/// A failure to read or write a record.
#[derive(Debug)]
pub enum JsonLinesError {
    /// The underlying stream failed.
    Io(std::io::Error),
    /// A line did not parse as a value of the wanted type.
    Malformed { kind: MalformedKind, source: serde_json::Error },
    /// A value could not be written as JSON.
    Encode(serde_json::Error),
}

/// The kind of malformed record that a codec error of `category` stands for;
/// none where the codec blames the stream.
pub open spec fn malformed_kind(category: ErrorCategory) -> Option<MalformedKind> {
    match category {
        ErrorCategory::Io => None,
        ErrorCategory::Syntax => Some(MalformedKind::InvalidData),
        ErrorCategory::Data => Some(MalformedKind::InvalidData),
        ErrorCategory::Eof => Some(MalformedKind::UnexpectedEof),
    }
}

/// The category that `serde_json::Error::classify` gives for `e`.  It is read
/// off the error and nothing else.
pub uninterp spec fn json_error_category(e: serde_json::Error) -> ErrorCategory;

/// The stream error that `serde_json` converts `e` into: for an error of the
/// category `Io`, the stream's own error that it holds.
pub uninterp spec fn json_error_to_io(e: serde_json::Error) -> std::io::Error;

/// The crate's error for a line that the codec rejected with `e`: a
/// malformed record of the kind that the category of `e` stands for, with
/// `e` inside; or, where the codec blames the stream, the stream's error.
pub open spec fn decode_failure(e: serde_json::Error) -> JsonLinesError {
    match malformed_kind(json_error_category(e)) {
        Some(kind) => JsonLinesError::Malformed { kind, source: e },
        None => JsonLinesError::Io(json_error_to_io(e)),
    }
}

/// The crate's error for a value that the codec could not write, for which
/// it gave `e`: an encoding failure with `e` inside; or, where the codec
/// blames the stream, the stream's error.
pub open spec fn encode_failure(e: serde_json::Error) -> JsonLinesError {
    if json_error_category(e) == ErrorCategory::Io {
        JsonLinesError::Io(json_error_to_io(e))
    } else {
        JsonLinesError::Encode(e)
    }
}

/// Calls `serde_json::Error::classify` and gives the category it returns,
/// variant for variant.
///
/// Not proved: that the category is `json_error_category` of the error,
/// which is to say that it depends on the error alone.
#[verifier::external_body]
pub(crate) fn classify(e: &serde_json::Error) -> (category: ErrorCategory)
    ensures
        category == json_error_category(*e),
{
    match e.classify() {
        serde_json::error::Category::Io => ErrorCategory::Io,
        serde_json::error::Category::Syntax => ErrorCategory::Syntax,
        serde_json::error::Category::Data => ErrorCategory::Data,
        serde_json::error::Category::Eof => ErrorCategory::Eof,
    }
}

/// Calls the conversion of a `serde_json::Error` into a `std::io::Error` that
/// `serde_json` provides (its `From` impl).
///
/// Not proved: that the result is `json_error_to_io` of the error, which is
/// to say that it depends on the error alone.
#[verifier::external_body]
pub(crate) fn into_io_error(e: serde_json::Error) -> (io: std::io::Error)
    ensures
        io == json_error_to_io(e),
{
    std::io::Error::from(e)
}

/// The kind of malformed record that a codec error of `category` stands for;
/// none where the codec blames the stream.
pub fn malformed_kind_of(category: ErrorCategory) -> (kind: Option<MalformedKind>)
    ensures
        kind == malformed_kind(category),
{
    match category {
        ErrorCategory::Io => None,
        ErrorCategory::Syntax => Some(MalformedKind::InvalidData),
        ErrorCategory::Data => Some(MalformedKind::InvalidData),
        ErrorCategory::Eof => Some(MalformedKind::UnexpectedEof),
    }
}

impl JsonLinesError {
    /// The error for a line that the codec rejected with `source`.
    pub fn from_decode(source: serde_json::Error) -> (e: JsonLinesError)
        ensures
            e == decode_failure(source),
    {
        match malformed_kind_of(classify(&source)) {
            Some(kind) => JsonLinesError::Malformed { kind, source },
            None => JsonLinesError::Io(into_io_error(source)),
        }
    }

    /// The error for a value that the codec could not write, for which it
    /// gave `source`.
    pub fn from_encode(source: serde_json::Error) -> (e: JsonLinesError)
        ensures
            e == encode_failure(source),
    {
        match classify(&source) {
            ErrorCategory::Io => JsonLinesError::Io(into_io_error(source)),
            _ => JsonLinesError::Encode(source),
        }
    }

    /// Whether the error says that a line is no record, and of which kind.
    pub fn malformed_kind(&self) -> (kind: Option<MalformedKind>)
        ensures
            kind == match *self {
                JsonLinesError::Malformed { kind, .. } => Some(kind),
                _ => None,
            },
    {
        match self {
            JsonLinesError::Malformed { kind, .. } => Some(*kind),
            _ => None,
        }
    }
}

} // verus!
