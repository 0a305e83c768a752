//! Line framing on byte sequences.
//!
//! A line is a run of bytes that ends with the first newline byte in it, or,
//! for the last line of a stream that lacks a final newline, with the end of
//! the stream.

use vstd::prelude::*;
use vstd::slice::slice_subrange;

verus! {

/// The byte that ends a record.
pub const NEWLINE: u8 = 10;

/// The byte that may stand before the newline of a line from elsewhere.
pub const CARRIAGE_RETURN: u8 = 13;

/// Whether `s` holds no newline byte.
pub open spec fn newline_free(s: Seq<u8>) -> bool {
    forall|i: int| 0 <= i < s.len() ==> s[i] != NEWLINE
}

/// The number of bytes in the first line of `s`: everything up to and
/// including the first newline, or all of `s` where it holds none.
pub open spec fn first_line_len(s: Seq<u8>) -> nat
    decreases s.len(),
{
    if s.len() == 0 {
        0
    } else if s[0] == NEWLINE {
        1
    } else {
        1 + first_line_len(s.skip(1))
    }
}

/// The first line of `s`, with its newline where it has one.
pub open spec fn first_line(s: Seq<u8>) -> Seq<u8> {
    s.take(first_line_len(s) as int)
}

/// What is left of `s` behind its first line.
pub open spec fn after_first_line(s: Seq<u8>) -> Seq<u8> {
    s.skip(first_line_len(s) as int)
}

/// The lines of `s` in order, each with its newline where it has one.
pub open spec fn lines_of(s: Seq<u8>) -> Seq<Seq<u8>>
    decreases s.len(),
    via lines_of_decreases
{
    if s.len() == 0 {
        Seq::empty()
    } else {
        seq![first_line(s)] + lines_of(after_first_line(s))
    }
}

#[via_fn]
proof fn lines_of_decreases(s: Seq<u8>) {
    lemma_first_line_len(s);
}

/// A record followed by the newline that ends it.
pub open spec fn framed(record: Seq<u8>) -> Seq<u8> {
    record.push(NEWLINE)
}

/// The document that holds `records`, one per line, in order.
pub open spec fn framed_all(records: Seq<Seq<u8>>) -> Seq<u8>
    decreases records.len(),
{
    if records.len() == 0 {
        Seq::empty()
    } else {
        framed_all(records.drop_last()) + framed(records.last())
    }
}

/// Whether the first line of `s` ends at `n`: no newline stands before the
/// last of the first `n` bytes, and `n` stops short of the end of `s` only
/// just behind a newline.
pub open spec fn is_first_line_end(s: Seq<u8>, n: int) -> bool {
    &&& 0 <= n <= s.len()
    &&& forall|i: int| 0 <= i < n - 1 ==> s[i] != NEWLINE
    &&& n < s.len() ==> n > 0 && s[n - 1] == NEWLINE
}

/// The first line ends where `is_first_line_end` says, and is empty only
/// where `s` is.
pub proof fn lemma_first_line_len(s: Seq<u8>)
    ensures
        is_first_line_end(s, first_line_len(s) as int),
        s.len() > 0 ==> first_line_len(s) > 0,
    decreases s.len(),
{
    if s.len() == 0 {
    } else if s[0] == NEWLINE {
    } else {
        let t = s.skip(1);
        lemma_first_line_len(t);
        let n = first_line_len(t) as int;
        assert forall|i: int| 0 <= i < n implies s[i] != NEWLINE by {
            if i > 0 {
                assert(s[i] == t[i - 1]);
            }
        }
        assert(n < t.len() ==> s[n] == t[n - 1]);
    }
}

/// Only one position is the end of the first line.
pub proof fn lemma_first_line_len_unique(s: Seq<u8>, n: int)
    requires
        is_first_line_end(s, n),
    ensures
        first_line_len(s) == n,
    decreases s.len(),
{
    if s.len() == 0 {
    } else if s[0] == NEWLINE {
    } else {
        let t = s.skip(1);
        assert forall|i: int| 0 <= i < n - 2 implies t[i] != NEWLINE by {
            assert(t[i] == s[i + 1]);
        }
        if n - 1 < t.len() {
            assert(n > 1) by {
                if n == 1 {
                    assert(s[0] == NEWLINE);
                }
            }
            assert(t[n - 2] == s[n - 1]);
        }
        lemma_first_line_len_unique(t, n - 1);
    }
}

/// The lines that `records` make, each record with its newline.
pub open spec fn framed_each(records: Seq<Seq<u8>>) -> Seq<Seq<u8>> {
    Seq::new(records.len(), |i: int| framed(records[i]))
}

/// Whether none of `records` holds a newline.
pub open spec fn all_newline_free(records: Seq<Seq<u8>>) -> bool {
    forall|i: int| 0 <= i < records.len() ==> newline_free(#[trigger] records[i])
}

/// Reading back what was written: where a document begins with a framed
/// record that holds no newline of its own, its first line is that record
/// with its newline, and what follows the line is what followed the record.
pub proof fn lemma_first_line_of_framed(record: Seq<u8>, rest: Seq<u8>)
    requires
        newline_free(record),
    ensures
        first_line(framed(record) + rest) == framed(record),
        after_first_line(framed(record) + rest) == rest,
{
    let s = framed(record) + rest;
    let n = record.len() + 1;
    assert forall|i: int| 0 <= i < n - 1 implies s[i] != NEWLINE by {
        assert(s[i] == record[i]);
    }
    assert(s[n - 1] == NEWLINE);
    lemma_first_line_len_unique(s, n as int);
    assert(s.take(n as int) =~= framed(record));
    assert(s.skip(n as int) =~= rest);
}

/// Writing in two parts is writing at once: the document of `a` followed by
/// the document of `b` is the document of `a + b`, in that order.  The
/// document of no records is empty, so adding no records changes nothing.
pub proof fn lemma_framed_all_concat(a: Seq<Seq<u8>>, b: Seq<Seq<u8>>)
    ensures
        framed_all(a + b) == framed_all(a) + framed_all(b),
        framed_all(Seq::<Seq<u8>>::empty()) == Seq::<u8>::empty(),
    decreases b.len(),
{
    if b.len() == 0 {
        assert(a + b =~= a);
        assert(framed_all(a) + framed_all(b) =~= framed_all(a));
    } else {
        assert((a + b).drop_last() =~= a + b.drop_last());
        assert((a + b).last() == b.last());
        lemma_framed_all_concat(a, b.drop_last());
        assert(framed_all(a + b) =~= framed_all(a) + framed_all(b));
    }
}

/// Framing: the document of `n` records that hold no newline of their own
/// has exactly `n` lines, and its `i`-th line is the `i`-th record with its
/// newline.  So no line is blank but for an empty record, and no two records
/// share a line.
pub proof fn lemma_lines_of_framed_all(records: Seq<Seq<u8>>)
    requires
        all_newline_free(records),
    ensures
        lines_of(framed_all(records)) == framed_each(records),
    decreases records.len(),
{
    if records.len() == 0 {
        assert(framed_each(records) =~= Seq::<Seq<u8>>::empty());
    } else {
        let head = records[0];
        let tail = records.skip(1);
        assert(records =~= seq![head] + tail);
        lemma_framed_all_concat(seq![head], tail);
        assert(seq![head].drop_last() =~= Seq::<Seq<u8>>::empty());
        assert(framed_all(seq![head]) =~= framed(head));
        let s = framed_all(records);
        assert(s == framed(head) + framed_all(tail));
        lemma_first_line_of_framed(head, framed_all(tail));
        assert forall|i: int| 0 <= i < tail.len() implies newline_free(#[trigger] tail[i]) by {
            assert(tail[i] == records[i + 1]);
        }
        lemma_lines_of_framed_all(tail);
        assert(s.len() > 0);
        assert(lines_of(s) == seq![first_line(s)] + lines_of(after_first_line(s)));
        assert forall|i: int| 0 <= i < records.len() implies (seq![framed(head)] + framed_each(
            tail,
        ))[i] == framed_each(records)[i] by {
            if i > 0 {
                assert(tail[i - 1] == records[i]);
            }
        }
        assert(lines_of(s) =~= framed_each(records));
    }
}

/// A document has no line exactly when it is empty, and none of its lines is
/// empty.
pub proof fn lemma_lines_of_nonempty(s: Seq<u8>)
    ensures
        lines_of(s).len() == 0 <==> s.len() == 0,
        forall|i: int| 0 <= i < lines_of(s).len() ==> (#[trigger] lines_of(s)[i]).len() > 0,
    decreases s.len(),
{
    if s.len() > 0 {
        lemma_first_line_len(s);
        let rest = after_first_line(s);
        lemma_lines_of_nonempty(rest);
        assert forall|i: int| 0 <= i < lines_of(s).len() implies (#[trigger] lines_of(s)[i]).len()
            > 0 by {
            if i > 0 {
                assert(lines_of(s)[i] == lines_of(rest)[i - 1]);
            }
        }
    }
}

/// What is left of `s` behind its first `k` lines.
pub open spec fn after_lines(s: Seq<u8>, k: nat) -> Seq<u8>
    decreases k,
{
    if k == 0 {
        s
    } else {
        after_lines(after_first_line(s), (k - 1) as nat)
    }
}

/// Taking lines off the front one by one walks through the lines of the
/// document: behind `k` of them the next one is line `k`, and behind all of
/// them nothing is left.
pub proof fn lemma_line_by_line(s: Seq<u8>, k: nat)
    requires
        k <= lines_of(s).len(),
    ensures
        k < lines_of(s).len() ==> first_line(after_lines(s, k)) == lines_of(s)[k as int],
        k == lines_of(s).len() <==> after_lines(s, k).len() == 0,
    decreases k,
{
    lemma_lines_of_nonempty(s);
    if k > 0 {
        let rest = after_first_line(s);
        assert(lines_of(s).len() == 1 + lines_of(rest).len());
        lemma_line_by_line(rest, (k - 1) as nat);
        if k < lines_of(s).len() {
            assert(lines_of(s)[k as int] == lines_of(rest)[k - 1]);
        }
    }
}

/// Finds the end of the first line of `data`.
pub fn line_end(data: &[u8]) -> (n: usize)
    ensures
        n == first_line_len(data@),
{
    let mut i: usize = 0;
    while i < data.len() && data[i] != NEWLINE
        invariant
            i <= data.len(),
            forall|k: int| 0 <= k < i ==> data@[k] != NEWLINE,
        decreases data.len() - i,
    {
        i = i + 1;
    }
    let n: usize = if i < data.len() {
        i + 1
    } else {
        i
    };
    proof {
        lemma_first_line_len_unique(data@, n as int);
    }
    n
}

/// Takes the first line off `input`: the line is returned, with its newline
/// where it has one, and `input` goes on behind it.  At the end of the input
/// the line is empty.
pub fn take_line<'a>(input: &mut &'a [u8]) -> (line: &'a [u8])
    ensures
        line@ == first_line(old(input)@),
        final(input)@ == after_first_line(old(input)@),
{
    let data: &'a [u8] = *input;
    let n: usize = line_end(data);
    proof {
        lemma_first_line_len(data@);
    }
    let line = slice_subrange(data, 0, n);
    let rest = slice_subrange(data, n, data.len());
    assert(line@ =~= first_line(data@));
    assert(rest@ =~= after_first_line(data@));
    *input = rest;
    line
}

/// A line without its ending: without the newline at its end, and without
/// the carriage return before that newline, where they are there.
pub open spec fn without_line_ending(line: Seq<u8>) -> Seq<u8> {
    if line.len() > 0 && line.last() == NEWLINE {
        let body = line.drop_last();
        if body.len() > 0 && body.last() == CARRIAGE_RETURN {
            body.drop_last()
        } else {
            body
        }
    } else {
        line
    }
}

/// Strips the ending of a line.
pub fn strip_line_ending(line: &[u8]) -> (body: &[u8])
    ensures
        body@ == without_line_ending(line@),
{
    let n: usize = line.len();
    if n > 0 && line[n - 1] == NEWLINE {
        if n > 1 && line[n - 2] == CARRIAGE_RETURN {
            let body = slice_subrange(line, 0, n - 2);
            assert(body@ =~= line@.drop_last().drop_last());
            body
        } else {
            let body = slice_subrange(line, 0, n - 1);
            assert(body@ =~= line@.drop_last());
            body
        }
    } else {
        line
    }
}

} // verus!
