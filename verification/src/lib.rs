//! Reading and writing JSON Lines documents.
//!
//! A JSON Lines document is a byte stream in which every record is one JSON
//! value on a line of its own, terminated by a single newline byte.  The crate
//! frames records on byte buffers, encodes and decodes them with `serde_json`,
//! and states what each operation does as a contract over `Seq<u8>` models of
//! the streams.
//!
//! The readers and writers are generic wrappers that own a stream.  On byte
//! buffers held in memory (`&[u8]` to read from, `Vec<u8>` to write to) they
//! do the whole work themselves.  For any other stream the caller moves the
//! bytes, and the codec and the sink decide what the bytes mean and what has
//! to be written next.

pub mod asyncio;
pub mod codec;
pub mod error;
pub mod framing;
pub mod reader;
pub mod sink;
pub mod writer;

pub use asyncio::{
    AsyncBufReadJsonLines, AsyncJsonLinesReader, AsyncJsonLinesWriter, AsyncWriteJsonLines,
    JsonLinesStream,
};
pub use error::{ErrorCategory, JsonLinesError, MalformedKind};
pub use reader::{BufReadExt, Iter, JsonLinesReader};
pub use sink::{JsonLinesSink, PendingBuffer, SinkGoal, SinkStep};
pub use writer::{JsonLinesWriter, WriteExt};
