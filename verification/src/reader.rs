//! Reading records one at a time, or as a sequence.

use crate::codec::{accepted, decode_line, decoded_line, json_parse, json_text};
use crate::error::JsonLinesError;
use crate::framing::{
    after_first_line, after_lines, first_line, framed, lemma_first_line_len,
    lemma_first_line_of_framed, lemma_line_by_line, lines_of, newline_free, take_line,
};
use std::marker::PhantomData;
use vstd::prelude::*;

verus! {

/// A reader of JSON Lines.
///
/// It owns an input stream and nothing else: all that it knows of its
/// position is in the stream, so reads of records and raw reads of the
/// stream may alternate.
#[derive(Debug)]
pub struct JsonLinesReader<R> {
    inner: R,
}

impl<R> View for JsonLinesReader<R> {
    type V = R;

    /// The stream that the reader owns.
    closed spec fn view(&self) -> R {
        self.inner
    }
}

impl<R> JsonLinesReader<R> {
    /// Wraps an input stream.
    pub fn new(reader: R) -> (r: Self)
        ensures
            r@ == reader,
    {
        JsonLinesReader { inner: reader }
    }

    /// Gives the stream back, at the position that the reads left it in.
    pub fn into_inner(self) -> (r: R)
        ensures
            r == self@,
    {
        self.inner
    }

    /// Lends the stream.
    pub fn get_ref(&self) -> (r: &R)
        ensures
            *r == self@,
    {
        &self.inner
    }

    /// Lends the stream for change: what the caller leaves in it is what the
    /// reader goes on with.
    pub fn get_mut(&mut self) -> (r: &mut R)
        ensures
            *r == old(self)@,
            final(self)@ == *final(r),
    {
        &mut self.inner
    }

    /// Turns the reader into a sequence of records taken as values of `T`.
    pub fn iter<T>(self) -> (r: Iter<R, T>)
        ensures
            r@ == self@,
    {
        Iter { reader: self, _output: PhantomData }
    }
}

impl<'a> JsonLinesReader<&'a [u8]> {
    /// Reads one line and decodes it.
    ///
    /// The reader moves behind the line whatever the line holds, so that a
    /// line that is no record costs one error and nothing more.  At the end
    /// of the input the answer is `Ok(None)`, and stays so.
    pub fn read(&mut self) -> (r: Result<Option<serde_json::Value>, JsonLinesError>)
        ensures
            r == decoded_line(first_line(old(self)@@)),
            final(self)@@ == after_first_line(old(self)@@),
            old(self)@@.len() == 0 ==> r == Ok::<Option<serde_json::Value>, JsonLinesError>(None)
                && final(self)@@ == old(self)@@,
    {
        proof {
            lemma_first_line_len(self.inner@);
        }
        let line = take_line(&mut self.inner);
        decode_line(line)
    }
}

/// What one pull from an input that holds `input` yields: nothing at the end
/// of the input, else what the first line holds.
pub open spec fn pulled(input: Seq<u8>) -> Option<Result<serde_json::Value, JsonLinesError>> {
    if input.len() == 0 {
        None
    } else {
        Some(accepted(json_parse(first_line(input))))
    }
}

/// End of input: a read at the end of the input yields nothing, without
/// error, and leaves the input at its end, so that every later read does the
/// same.
pub proof fn lemma_end_of_input(input: Seq<u8>)
    requires
        input.len() == 0,
    ensures
        decoded_line(first_line(input)) == Ok::<Option<serde_json::Value>, JsonLinesError>(None),
        after_first_line(input) == input,
        pulled(input) is None,
{
    assert(after_first_line(input) =~= input);
}

/// Resilience: read after read, an input yields what its lines hold, line
/// by line.  What read `k` yields depends on line `k` alone, so a line that
/// is no record costs one error and leaves the reads around it as they are;
/// and the read behind the last line yields nothing.
pub proof fn lemma_reads_follow_lines(input: Seq<u8>, k: nat)
    requires
        k <= lines_of(input).len(),
    ensures
        k < lines_of(input).len() ==> decoded_line(first_line(after_lines(input, k)))
            == decoded_line(lines_of(input)[k as int]),
        k == lines_of(input).len() ==> decoded_line(first_line(after_lines(input, k))) == Ok::<
            Option<serde_json::Value>,
            JsonLinesError,
        >(None),
{
    lemma_line_by_line(input, k);
    if k == lines_of(input).len() {
        lemma_end_of_input(after_lines(input, k));
    }
}

/// Round trip: where a value has the JSON `json`, which holds no newline and
/// which the codec parses back to the value, a read of the line written for
/// the value yields the value and stops just behind the line.
pub proof fn lemma_round_trip(value: serde_json::Value, json: Seq<u8>, rest: Seq<u8>)
    requires
        json_text(value) == Ok::<Seq<u8>, serde_json::Error>(json),
        newline_free(json),
        json_parse(framed(json)) == Ok::<serde_json::Value, serde_json::Error>(value),
    ensures
        decoded_line(first_line(framed(json) + rest)) == Ok::<
            Option<serde_json::Value>,
            JsonLinesError,
        >(Some(value)),
        after_first_line(framed(json) + rest) == rest,
{
    lemma_first_line_of_framed(json, rest);
}

/// What collecting the records of an input that holds `input` yields: the
/// values of all its lines in order, or the error of the first line that
/// holds none.
pub open spec fn collected(input: Seq<u8>) -> Result<Seq<serde_json::Value>, JsonLinesError>
    decreases input.len(),
    via collected_decreases
{
    match pulled(input) {
        None => Ok(Seq::empty()),
        Some(Err(e)) => Err(e),
        Some(Ok(value)) => collected_after(seq![value], collected(after_first_line(input))),
    }
}

#[via_fn]
proof fn collected_decreases(input: Seq<u8>) {
    lemma_first_line_len(input);
}

/// The values of a vector in a result, as a sequence.
pub open spec fn values_of(r: Result<Vec<serde_json::Value>, JsonLinesError>) -> Result<
    Seq<serde_json::Value>,
    JsonLinesError,
> {
    match r {
        Ok(values) => Ok(values@),
        Err(e) => Err(e),
    }
}

/// The values collected so far, followed by what collecting the rest yields.
pub open spec fn collected_after(
    done: Seq<serde_json::Value>,
    rest: Result<Seq<serde_json::Value>, JsonLinesError>,
) -> Result<Seq<serde_json::Value>, JsonLinesError> {
    match rest {
        Ok(values) => Ok(done + values),
        Err(e) => Err(e),
    }
}

/// The records of an input stream, each taken as a value of `T`.
///
/// The sequence runs forward only and ends for good when the stream does.
#[derive(Debug)]
pub struct Iter<R, T> {
    reader: JsonLinesReader<R>,
    _output: PhantomData<T>,
}

impl<R, T> View for Iter<R, T> {
    type V = R;

    /// The stream that the sequence reads from.
    closed spec fn view(&self) -> R {
        self.reader@
    }
}

impl<R, T> Iter<R, T> {
    /// Gives the reader back, at the position that the pulls left it in.
    pub fn into_reader(self) -> (r: JsonLinesReader<R>)
        ensures
            r@ == self@,
    {
        self.reader
    }
}

impl<'a> Iter<&'a [u8], serde_json::Value> {
    /// Pulls the next record: `None` once the input has ended, else the value
    /// of the next line or the reason why the line holds none.  An error does
    /// not end the sequence.
    pub fn next(&mut self) -> (r: Option<Result<serde_json::Value, JsonLinesError>>)
        ensures
            r == pulled(old(self)@@),
            final(self)@@ == after_first_line(old(self)@@),
            old(self)@@.len() == 0 ==> r is None && final(self)@@ == old(self)@@,
    {
        proof {
            lemma_first_line_len(self.reader@@);
        }
        match self.reader.read() {
            Ok(Some(value)) => Some(Ok(value)),
            Ok(None) => None,
            Err(e) => Some(Err(e)),
        }
    }
}

/// Gives an input stream the method `json_lines`.
pub trait BufReadExt: Sized {
    /// Turns the stream into the sequence of its records, each taken as a
    /// value of `T`: the same as wrapping it in a reader and asking that for
    /// the sequence.
    fn json_lines<T>(self) -> (r: Iter<Self, T>)
        ensures
            r@ == self,
    ;
}

impl<'a> BufReadExt for &'a [u8] {
    fn json_lines<T>(self) -> (r: Iter<Self, T>) {
        JsonLinesReader::new(self).iter()
    }
}

impl<'a> Iter<&'a [u8], serde_json::Value> {
    /// Pulls all records that are left and gives their values in order.
    /// Stops at the first line that is no record and gives its error.
    pub fn collect(self) -> (r: Result<Vec<serde_json::Value>, JsonLinesError>)
        ensures
            values_of(r) == collected(self@@),
    {
        let mut items = self;
        let mut values: Vec<serde_json::Value> = Vec::new();
        assert(Seq::<serde_json::Value>::empty() + collected(items@@)->Ok_0 =~= collected(
            items@@,
        )->Ok_0);
        loop
            invariant
                collected(self@@) == collected_after(values@, collected(items@@)),
            decreases items@@.len(),
        {
            let ghost before = items@@;
            let ghost done = values@;
            proof {
                lemma_first_line_len(before);
            }
            match items.next() {
                None => {
                    assert(values@ + Seq::<serde_json::Value>::empty() =~= values@);
                    return Ok(values);
                },
                Some(Err(e)) => {
                    return Err(e);
                },
                Some(Ok(value)) => {
                    values.push(value);
                    proof {
                        let rest = collected(items@@);
                        if let Ok(tail) = rest {
                            assert(done + (seq![value] + tail) =~= values@ + tail);
                        }
                    }
                },
            }
        }
    }
}

} // verus!
