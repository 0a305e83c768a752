//! The wrappers of the asynchronous flavour.
//!
//! The asynchronous reader and writer own their streams as the synchronous
//! ones do.  Waiting for a stream is the caller's part; what is decided
//! between two waits is decided by the codec and by the sink.

use crate::codec::{
    accepted, bytes_of, decode_line, decode_next, decoded_line, json_parse, json_text, to_vec,
};
use crate::error::JsonLinesError;
use crate::framing::{
    after_first_line, first_line, lemma_first_line_len, strip_line_ending, take_line,
    without_line_ending,
};
use crate::reader::{collected_after, values_of};
use crate::sink::JsonLinesSink;
use crate::writer::{push_record, wrote_one};
use std::marker::PhantomData;
use vstd::prelude::*;

verus! {

/// A reader of JSON Lines from an asynchronous input stream.
#[derive(Clone, Debug, PartialEq, Eq)]
pub struct AsyncJsonLinesReader<R> {
    inner: R,
}

impl<R> View for AsyncJsonLinesReader<R> {
    type V = R;

    /// The stream that the reader owns.
    closed spec fn view(&self) -> R {
        self.inner
    }
}

impl<R> AsyncJsonLinesReader<R> {
    /// Wraps an input stream.
    pub fn new(reader: R) -> (r: Self)
        ensures
            r@ == reader,
    {
        AsyncJsonLinesReader { inner: reader }
    }

    /// Gives the stream back, at the position that the reads left it in.
    pub fn into_inner(self) -> (r: R)
        ensures
            r == self@,
    {
        self.inner
    }

    /// Lends the stream.
    pub fn get_ref(&self) -> (r: &R)
        ensures
            *r == self@,
    {
        &self.inner
    }

    /// Lends the stream for change: what the caller leaves in it is what the
    /// reader goes on with.
    pub fn get_mut(&mut self) -> (r: &mut R)
        ensures
            *r == old(self)@,
            final(self)@ == *final(r),
    {
        &mut self.inner
    }

    /// Turns the reader into a stream of records taken as values of `T`.
    pub fn read_all<T>(self) -> (r: JsonLinesStream<R, T>)
        ensures
            r@ == self@,
    {
        JsonLinesStream { inner: self.inner, _output: PhantomData }
    }
}

impl<'a> AsyncJsonLinesReader<&'a [u8]> {
    /// Reads one line and decodes it.  Bytes in memory are there at once, so
    /// there is nothing to wait for.
    ///
    /// The reader moves behind the line whatever the line holds.  At the end
    /// of the input the answer is `Ok(None)`, and stays so.
    pub fn read(&mut self) -> (r: Result<Option<serde_json::Value>, JsonLinesError>)
        ensures
            r == decoded_line(first_line(old(self)@@)),
            final(self)@@ == after_first_line(old(self)@@),
            old(self)@@.len() == 0 ==> r == Ok::<Option<serde_json::Value>, JsonLinesError>(None)
                && final(self)@@ == old(self)@@,
    {
        proof {
            lemma_first_line_len(self.inner@);
        }
        let line = take_line(&mut self.inner);
        decode_line(line)
    }
}

/// What one pull from a stream of records on an input that holds `input`
/// yields: nothing at the end of the input, else what the first line holds
/// without its ending.
pub open spec fn streamed(input: Seq<u8>) -> Option<Result<serde_json::Value, JsonLinesError>> {
    if input.len() == 0 {
        None
    } else {
        Some(accepted(json_parse(without_line_ending(first_line(input)))))
    }
}

/// The records of an asynchronous input stream, each taken as a value of
/// `T`.
#[derive(Debug)]
#[must_use]
pub struct JsonLinesStream<R, T> {
    inner: R,
    _output: PhantomData<T>,
}

impl<R, T> View for JsonLinesStream<R, T> {
    type V = R;

    /// The stream that the records are read from.
    closed spec fn view(&self) -> R {
        self.inner
    }
}

impl<R, T> JsonLinesStream<R, T> {
    /// Gives the input stream back.
    pub fn into_inner(self) -> (r: R)
        ensures
            r == self@,
    {
        self.inner
    }
}

impl<'a> JsonLinesStream<&'a [u8], serde_json::Value> {
    /// Pulls the next record: `None` once the input has ended, else the value
    /// of the next line or the reason why the line holds none.  The line is
    /// parsed without its ending, so a blank line is an error like any other
    /// line that is no record.  An error does not end the stream.
    pub fn next(&mut self) -> (r: Option<Result<serde_json::Value, JsonLinesError>>)
        ensures
            r == streamed(old(self)@@),
            final(self)@@ == after_first_line(old(self)@@),
            old(self)@@.len() == 0 ==> r is None && final(self)@@ == old(self)@@,
    {
        proof {
            lemma_first_line_len(self.inner@);
        }
        let line = take_line(&mut self.inner);
        if line.len() == 0 {
            decode_next(None)
        } else {
            decode_next(Some(strip_line_ending(line)))
        }
    }
}

/// What collecting the records of a stream on an input that holds `input`
/// yields: the values of all its lines in order, or the error of the first
/// line that holds none.
pub open spec fn streamed_all(input: Seq<u8>) -> Result<Seq<serde_json::Value>, JsonLinesError>
    decreases input.len(),
    via streamed_all_decreases
{
    match streamed(input) {
        None => Ok(Seq::empty()),
        Some(Err(e)) => Err(e),
        Some(Ok(value)) => collected_after(seq![value], streamed_all(after_first_line(input))),
    }
}

#[via_fn]
proof fn streamed_all_decreases(input: Seq<u8>) {
    lemma_first_line_len(input);
}

impl<'a> JsonLinesStream<&'a [u8], serde_json::Value> {
    /// Pulls all records that are left and gives their values in order.
    /// Stops at the first line that is no record and gives its error.
    pub fn collect(self) -> (r: Result<Vec<serde_json::Value>, JsonLinesError>)
        ensures
            values_of(r) == streamed_all(self@@),
    {
        let mut items = self;
        let mut values: Vec<serde_json::Value> = Vec::new();
        assert(Seq::<serde_json::Value>::empty() + streamed_all(items@@)->Ok_0 =~= streamed_all(
            items@@,
        )->Ok_0);
        loop
            invariant
                streamed_all(self@@) == collected_after(values@, streamed_all(items@@)),
            decreases items@@.len(),
        {
            let ghost done = values@;
            proof {
                lemma_first_line_len(items@@);
            }
            match items.next() {
                None => {
                    assert(values@ + Seq::<serde_json::Value>::empty() =~= values@);
                    return Ok(values);
                },
                Some(Err(e)) => {
                    return Err(e);
                },
                Some(Ok(value)) => {
                    values.push(value);
                    proof {
                        if let Ok(tail) = streamed_all(items@@) {
                            assert(done + (seq![value] + tail) =~= values@ + tail);
                        }
                    }
                },
            }
        }
    }
}

/// A writer of JSON Lines to an asynchronous output stream.
#[derive(Clone, Debug, PartialEq, Eq)]
pub struct AsyncJsonLinesWriter<W> {
    inner: W,
}

impl<W> View for AsyncJsonLinesWriter<W> {
    type V = W;

    /// The stream that the writer owns.
    closed spec fn view(&self) -> W {
        self.inner
    }
}

impl<W> AsyncJsonLinesWriter<W> {
    /// Wraps an output stream.
    pub fn new(writer: W) -> (r: Self)
        ensures
            r@ == writer,
    {
        AsyncJsonLinesWriter { inner: writer }
    }

    /// Gives the stream back, holding what was written.
    pub fn into_inner(self) -> (r: W)
        ensures
            r == self@,
    {
        self.inner
    }

    /// Lends the stream.
    pub fn get_ref(&self) -> (r: &W)
        ensures
            *r == self@,
    {
        &self.inner
    }

    /// Lends the stream for change: what the caller leaves in it is what the
    /// writer goes on with.
    pub fn get_mut(&mut self) -> (r: &mut W)
        ensures
            *r == old(self)@,
            final(self)@ == *final(r),
    {
        &mut self.inner
    }

    /// Turns the writer into a sink for records of type `T`, ready for the
    /// first of them.
    pub fn into_sink<T>(self) -> (r: JsonLinesSink<W, T>)
        ensures
            r.stream() == self@,
            r.pending().len() == 0,
    {
        JsonLinesSink::new(self.inner)
    }
}

impl AsyncJsonLinesWriter<Vec<u8>> {
    /// Writes a record that the caller has encoded: the JSON and a newline
    /// are appended.  Where the codec gave an error instead, nothing is
    /// written and the error comes back.
    pub fn write_encoded(&mut self, encoded: Result<Vec<u8>, serde_json::Error>) -> (r: Result<
        (),
        JsonLinesError,
    >)
        ensures
            wrote_one(old(self)@@, bytes_of(encoded), final(self)@@, r),
    {
        push_record(&mut self.inner, encoded)
    }

    /// Writes `value` as one line: compact JSON and a newline, in one piece.
    /// Does not flush.  A value without a JSON form leaves the output as it
    /// was.
    pub fn write(&mut self, value: &serde_json::Value) -> (r: Result<(), JsonLinesError>)
        ensures
            wrote_one(old(self)@@, json_text(*value), final(self)@@, r),
    {
        self.write_encoded(to_vec(value))
    }

    /// Flushes the output.  A byte buffer holds all that was written to it,
    /// so there is nothing to do and nothing to fail.
    pub fn flush(&mut self) -> (r: Result<(), JsonLinesError>)
        ensures
            r is Ok,
            final(self)@ == old(self)@,
    {
        Ok(())
    }
}

/// Gives an input stream the method `json_lines`.
pub trait AsyncBufReadJsonLines: Sized {
    /// Turns the stream into a stream of records taken as values of `T`.
    fn json_lines<T>(self) -> (r: JsonLinesStream<Self, T>)
        ensures
            r@ == self,
    ;
}

impl<'a> AsyncBufReadJsonLines for &'a [u8] {
    fn json_lines<T>(self) -> (r: JsonLinesStream<Self, T>) {
        AsyncJsonLinesReader::new(self).read_all()
    }
}

/// Gives an output stream the method `into_json_lines_sink`.
pub trait AsyncWriteJsonLines: Sized {
    /// Turns the stream into a sink for records of type `T`, ready for the
    /// first of them.
    fn into_json_lines_sink<T>(self) -> (r: JsonLinesSink<Self, T>)
        ensures
            r.stream() == self,
            r.pending().len() == 0,
    ;
}

impl AsyncWriteJsonLines for Vec<u8> {
    fn into_json_lines_sink<T>(self) -> (r: JsonLinesSink<Self, T>) {
        JsonLinesSink::new(self)
    }
}

} // verus!
