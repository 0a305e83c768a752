//! Writing records one at a time, or many in order.

use crate::codec::{bytes_of, frame_encoded, json_text, to_vec};
use crate::error::{encode_failure, JsonLinesError};
use crate::framing::{
    all_newline_free, framed, framed_all, framed_each, lemma_framed_all_concat,
    lemma_lines_of_framed_all, lines_of,
};
use vstd::prelude::*;

verus! {

/// A writer of JSON Lines.
///
/// It owns an output stream and nothing else, so writes of records and raw
/// writes to the stream may alternate.
#[derive(Debug)]
pub struct JsonLinesWriter<W> {
    inner: W,
}

impl<W> View for JsonLinesWriter<W> {
    type V = W;

    /// The stream that the writer owns.
    closed spec fn view(&self) -> W {
        self.inner
    }
}

/// What one write does to an output that held `before`, given the codec's
/// answer for the value: the framed JSON is appended, or nothing is and the
/// error comes back.
pub open spec fn wrote_one(
    before: Seq<u8>,
    encoded: Result<Seq<u8>, serde_json::Error>,
    after: Seq<u8>,
    r: Result<(), JsonLinesError>,
) -> bool {
    match encoded {
        Ok(json) => r is Ok && after == before + framed(json),
        Err(e) => r == Err::<(), JsonLinesError>(encode_failure(e)) && after == before,
    }
}

/// The number of values at the front of `items` that the codec can encode:
/// the index of the first that it cannot, or the length if there is none.
pub open spec fn first_failure(items: Seq<serde_json::Value>) -> nat
    decreases items.len(),
{
    if items.len() == 0 {
        0
    } else if json_text(items[0]) is Err {
        0
    } else {
        1 + first_failure(items.skip(1))
    }
}

/// The JSON of the first `k` values of `items`.
pub open spec fn encoded_prefix(items: Seq<serde_json::Value>, k: int) -> Seq<Seq<u8>> {
    Seq::new(k as nat, |i: int| json_text(items[i])->Ok_0)
}

/// What writing `items` in order does to an output that held `before`: the
/// values in front of the first failure are appended, one line each, and the
/// first failure, if there is one, comes back.
pub open spec fn wrote_all(
    before: Seq<u8>,
    items: Seq<serde_json::Value>,
    after: Seq<u8>,
    r: Result<(), JsonLinesError>,
) -> bool {
    let k = first_failure(items) as int;
    &&& after == before + framed_all(encoded_prefix(items, k))
    &&& k == items.len() ==> r is Ok
    &&& k < items.len() ==> r == Err::<(), JsonLinesError>(
        encode_failure(json_text(items[k])->Err_0),
    )
}

/// `k` is the first failure of `items` where every value before it can be
/// encoded and the one at `k`, if there is one, cannot.
pub proof fn lemma_first_failure(items: Seq<serde_json::Value>, k: int)
    requires
        0 <= k <= items.len(),
        forall|i: int| 0 <= i < k ==> (#[trigger] json_text(items[i])) is Ok,
        k < items.len() ==> json_text(items[k]) is Err,
    ensures
        first_failure(items) == k,
    decreases items.len(),
{
    if items.len() == 0 {
    } else if json_text(items[0]) is Err {
    } else {
        let t = items.skip(1);
        assert forall|i: int| 0 <= i < k - 1 implies (#[trigger] json_text(t[i])) is Ok by {
            assert(t[i] == items[i + 1]);
        }
        if k - 1 < t.len() {
            assert(t[k - 1] == items[k]);
        }
        lemma_first_failure(t, k - 1);
    }
}

/// The first failure lies within `items`; every value before it can be
/// encoded, and the one at it, if there is one, cannot.
pub proof fn lemma_first_failure_is_first(items: Seq<serde_json::Value>)
    ensures
        first_failure(items) <= items.len(),
        forall|i: int| 0 <= i < first_failure(items) ==> (#[trigger] json_text(items[i])) is Ok,
        first_failure(items) < items.len() ==> json_text(items[first_failure(items) as int]) is Err,
    decreases items.len(),
{
    if items.len() == 0 {
    } else if json_text(items[0]) is Err {
    } else {
        let t = items.skip(1);
        lemma_first_failure_is_first(t);
        let k = first_failure(t) as int;
        assert forall|i: int| 0 <= i < k + 1 implies (#[trigger] json_text(items[i])) is Ok by {
            if i > 0 {
                assert(items[i] == t[i - 1]);
            }
        }
        if k < t.len() {
            assert(items[k + 1] == t[k]);
        }
    }
}

/// Order of appending: where writing `xs` to an output succeeded, writing
/// `ys` behind it leaves what writing `xs + ys` at once would have left, with
/// the same result.
pub proof fn lemma_write_all_twice(
    before: Seq<u8>,
    xs: Seq<serde_json::Value>,
    between: Seq<u8>,
    r1: Result<(), JsonLinesError>,
    ys: Seq<serde_json::Value>,
    after: Seq<u8>,
    r2: Result<(), JsonLinesError>,
)
    requires
        wrote_all(before, xs, between, r1),
        r1 is Ok,
        wrote_all(between, ys, after, r2),
    ensures
        wrote_all(before, xs + ys, after, r2),
{
    lemma_first_failure_is_first(xs);
    lemma_first_failure_is_first(ys);
    let n = xs.len() as int;
    let k = first_failure(ys) as int;
    let all = xs + ys;
    assert forall|i: int| 0 <= i < n + k implies (#[trigger] json_text(all[i])) is Ok by {
        if i >= n {
            assert(all[i] == ys[i - n]);
        } else {
            assert(all[i] == xs[i]);
        }
    }
    if n + k < all.len() {
        assert(all[n + k] == ys[k]);
    }
    lemma_first_failure(all, n + k);
    assert(encoded_prefix(all, n + k) =~= encoded_prefix(xs, n) + encoded_prefix(ys, k)) by {
        assert forall|i: int| 0 <= i < n + k implies encoded_prefix(all, n + k)[i] == (
        encoded_prefix(xs, n) + encoded_prefix(ys, k))[i] by {
            if i >= n {
                assert(all[i] == ys[i - n]);
            } else {
                assert(all[i] == xs[i]);
            }
        }
    }
    lemma_framed_all_concat(encoded_prefix(xs, n), encoded_prefix(ys, k));
    assert(after =~= before + framed_all(encoded_prefix(all, n + k)));
}

/// Writing no records succeeds and changes nothing.
pub proof fn lemma_write_all_none(before: Seq<u8>, after: Seq<u8>, r: Result<(), JsonLinesError>)
    requires
        wrote_all(before, Seq::<serde_json::Value>::empty(), after, r),
    ensures
        after == before,
        r is Ok,
{
    assert(encoded_prefix(Seq::<serde_json::Value>::empty(), 0) =~= Seq::<Seq<u8>>::empty());
    assert(before + Seq::<u8>::empty() =~= before);
}

/// Where every value of `items` can be encoded, writing them succeeds and
/// appends one line for each, in order.
pub proof fn lemma_write_all_ok(
    before: Seq<u8>,
    items: Seq<serde_json::Value>,
    after: Seq<u8>,
    r: Result<(), JsonLinesError>,
)
    requires
        wrote_all(before, items, after, r),
        forall|i: int| 0 <= i < items.len() ==> (#[trigger] json_text(items[i])) is Ok,
    ensures
        r is Ok,
        after == before + framed_all(encoded_prefix(items, items.len() as int)),
{
    lemma_first_failure(items, items.len() as int);
}

/// Framing: where writing `items` to an empty output succeeded and the JSON
/// of no item holds a newline, the output has exactly one line for each item,
/// in order, and each line is the JSON of its item with a newline behind it.
pub proof fn lemma_written_lines(
    items: Seq<serde_json::Value>,
    out: Seq<u8>,
    r: Result<(), JsonLinesError>,
)
    requires
        wrote_all(Seq::<u8>::empty(), items, out, r),
        r is Ok,
        all_newline_free(encoded_prefix(items, items.len() as int)),
    ensures
        lines_of(out) == framed_each(encoded_prefix(items, items.len() as int)),
        lines_of(out).len() == items.len(),
{
    lemma_first_failure_is_first(items);
    let records = encoded_prefix(items, items.len() as int);
    assert(out =~= framed_all(records));
    lemma_lines_of_framed_all(records);
}

impl<W> JsonLinesWriter<W> {
    /// Wraps an output stream.
    pub fn new(writer: W) -> (r: Self)
        ensures
            r@ == writer,
    {
        JsonLinesWriter { inner: writer }
    }

    /// Gives the stream back, holding what was written.
    pub fn into_inner(self) -> (r: W)
        ensures
            r == self@,
    {
        self.inner
    }

    /// Lends the stream.
    pub fn get_ref(&self) -> (r: &W)
        ensures
            *r == self@,
    {
        &self.inner
    }

    /// Lends the stream for change: what the caller leaves in it is what the
    /// writer goes on with.
    pub fn get_mut(&mut self) -> (r: &mut W)
        ensures
            *r == old(self)@,
            final(self)@ == *final(r),
    {
        &mut self.inner
    }
}

/// Appends an encoded record and its newline to `out`.  Where the codec gave
/// an error instead, `out` stays as it was and the error comes back.
pub fn push_record(out: &mut Vec<u8>, encoded: Result<Vec<u8>, serde_json::Error>) -> (r: Result<
    (),
    JsonLinesError,
>)
    ensures
        wrote_one(old(out)@, bytes_of(encoded), final(out)@, r),
{
    match frame_encoded(encoded) {
        Ok(mut line) => {
            out.append(&mut line);
            Ok(())
        },
        Err(e) => Err(e),
    }
}

/// Gives an output stream the method `write_json_lines`.
pub trait WriteExt {
    /// The bytes that the stream has been given.
    spec fn written(&self) -> Seq<u8>;

    /// Writes each of `items` as one line, in order, and stops at the first
    /// that cannot be encoded.  Does not flush.
    fn write_json_lines(&mut self, items: &[serde_json::Value]) -> (r: Result<(), JsonLinesError>)
        ensures
            wrote_all(old(self).written(), items@, final(self).written(), r),
    ;
}

impl WriteExt for Vec<u8> {
    open spec fn written(&self) -> Seq<u8> {
        self@
    }

    fn write_json_lines(&mut self, items: &[serde_json::Value]) -> (r: Result<(), JsonLinesError>) {
        let mut i: usize = 0;
        while i < items.len()
            invariant
                i <= items.len(),
                forall|j: int| 0 <= j < i ==> (#[trigger] json_text(items@[j])) is Ok,
                self@ == old(self)@ + framed_all(encoded_prefix(items@, i as int)),
            decreases items.len() - i,
        {
            match push_record(self, to_vec(&items[i])) {
                Ok(()) => {},
                Err(e) => {
                    proof {
                        lemma_first_failure(items@, i as int);
                    }
                    return Err(e);
                },
            }
            proof {
                let next = encoded_prefix(items@, i + 1);
                assert(next.drop_last() =~= encoded_prefix(items@, i as int));
                assert(self@ =~= old(self)@ + framed_all(next));
            }
            i = i + 1;
        }
        proof {
            lemma_first_failure(items@, i as int);
        }
        Ok(())
    }
}

impl JsonLinesWriter<Vec<u8>> {
    /// Writes a record that the caller has encoded: the JSON and a newline
    /// are appended.  Where the codec gave an error instead, nothing is
    /// written and the error comes back.
    pub fn write_encoded(&mut self, encoded: Result<Vec<u8>, serde_json::Error>) -> (r: Result<
        (),
        JsonLinesError,
    >)
        ensures
            wrote_one(old(self)@@, bytes_of(encoded), final(self)@@, r),
    {
        push_record(&mut self.inner, encoded)
    }

    /// Writes `value` as one line: compact JSON and a newline.  Does not
    /// flush.  A value without a JSON form leaves the output as it was.
    pub fn write(&mut self, value: &serde_json::Value) -> (r: Result<(), JsonLinesError>)
        ensures
            wrote_one(old(self)@@, json_text(*value), final(self)@@, r),
    {
        self.write_encoded(to_vec(value))
    }

    /// Writes each of `items` as one line, in order, and stops at the first
    /// that cannot be encoded.  Does not flush.
    pub fn write_all(&mut self, items: &[serde_json::Value]) -> (r: Result<(), JsonLinesError>)
        ensures
            wrote_all(old(self)@@, items@, final(self)@@, r),
    {
        self.inner.write_json_lines(items)
    }

    /// Flushes the output.  A byte buffer holds all that was written to it,
    /// so there is nothing to do and nothing to fail.
    pub fn flush(&mut self) -> (r: Result<(), JsonLinesError>)
        ensures
            r is Ok,
            final(self)@ == old(self)@,
    {
        Ok(())
    }
}

} // verus!
