//! A sink of records with flow control.
//!
//! The sink encodes a record once and then hands its bytes to the output in
//! as many writes as the output needs.  Between the two it keeps the bytes
//! that the output has not taken yet, and accepts no other record.

use crate::codec::{bytes_of, frame_encoded, json_text, to_vec};
use crate::error::{encode_failure, JsonLinesError};
use crate::framing::framed;
use std::marker::PhantomData;
use vstd::prelude::*;
use vstd::slice::slice_subrange;

verus! {

/// What the caller of a sink is about to do with it.
#[derive(Clone, Copy, Debug, PartialEq, Eq, Structural)]
pub enum SinkGoal {
    /// Hand it the next record.
    Ready,
    /// Flush the output.
    Flush,
    /// Close the output.
    Close,
}

/// What has to happen next on the way to a goal.
#[derive(Clone, Copy, Debug, PartialEq, Eq, Structural)]
pub enum SinkStep {
    /// Write the pending bytes, or some of them, to the output.
    Write,
    /// Flush the output; the goal is reached when that is done.
    Flush,
    /// Shut the output down; the goal is reached when that is done.
    Shutdown,
    /// Nothing: the goal is reached.
    Done,
}

/// The step that leads towards `goal` for a sink with `pending` bytes in
/// hand: pending bytes are written before anything else.
pub open spec fn step_towards(goal: SinkGoal, pending: Seq<u8>) -> SinkStep {
    if pending.len() > 0 {
        SinkStep::Write
    } else {
        match goal {
            SinkGoal::Ready => SinkStep::Done,
            SinkGoal::Flush => SinkStep::Flush,
            SinkGoal::Close => SinkStep::Shutdown,
        }
    }
}

/// Flow control: whatever the goal, pending bytes are written before
/// anything else, and the sink is ready for a record only when none is left.
pub proof fn lemma_pending_goes_first(goal: SinkGoal, pending: Seq<u8>)
    ensures
        pending.len() > 0 <==> step_towards(goal, pending) == SinkStep::Write,
        pending.len() == 0 <==> step_towards(SinkGoal::Ready, pending) == SinkStep::Done,
{
}

/// What submitting a record does to a ready sink, given the codec's answer
/// for the record: the framed JSON becomes the pending bytes, or the error
/// comes back and nothing is pending.
pub open spec fn submitted(
    encoded: Result<Seq<u8>, serde_json::Error>,
    pending: Seq<u8>,
    r: Result<(), JsonLinesError>,
) -> bool {
    match encoded {
        Ok(json) => r is Ok && pending == framed(json),
        Err(e) => r == Err::<(), JsonLinesError>(encode_failure(e)) && pending.len() == 0,
    }
}

/// The bytes of one encoded record, and how many of them the output has
/// taken.
///
/// A record is loaded whole and handed out piece by piece; the buffer is
/// empty again when the last piece is gone.
#[derive(Debug)]
pub struct PendingBuffer {
    buffer: Option<Vec<u8>>,
    offset: usize,
}

impl View for PendingBuffer {
    type V = Seq<u8>;

    /// The bytes that the output has not taken yet.
    closed spec fn view(&self) -> Seq<u8> {
        match self.buffer {
            Some(bytes) => bytes@.skip(self.offset as int),
            None => Seq::empty(),
        }
    }
}

impl PendingBuffer {
    /// Bytes are held only while some of them are unwritten.
    #[verifier::type_invariant]
    spec fn well_formed(self) -> bool {
        self.buffer matches Some(bytes) ==> self.offset < bytes@.len()
    }

    /// An empty buffer.
    pub fn new() -> (r: Self)
        ensures
            r@.len() == 0,
    {
        PendingBuffer { buffer: None, offset: 0 }
    }

    /// Whether nothing is pending.
    pub fn is_empty(&self) -> (r: bool)
        ensures
            r == (self@.len() == 0),
    {
        proof {
            use_type_invariant(self);
        }
        self.buffer.is_none()
    }

    /// The step that leads towards `goal` with these bytes in hand.
    pub fn next_step(&self, goal: SinkGoal) -> (r: SinkStep)
        ensures
            r == step_towards(goal, self@),
    {
        if !self.is_empty() {
            SinkStep::Write
        } else {
            match goal {
                SinkGoal::Ready => SinkStep::Done,
                SinkGoal::Flush => SinkStep::Flush,
                SinkGoal::Close => SinkStep::Shutdown,
            }
        }
    }

    /// Loads the bytes of a record.  The buffer must be empty: a record is
    /// never loaded on top of another.
    pub fn load(&mut self, line: Vec<u8>)
        requires
            old(self)@.len() == 0,
        ensures
            final(self)@ == line@,
    {
        proof {
            use_type_invariant(&*self);
        }
        assert(line@.skip(0) =~= line@);
        self.offset = 0;
        if line.len() > 0 {
            self.buffer = Some(line);
        }
    }

    /// The pending bytes.
    pub fn unwritten(&self) -> (r: &[u8])
        ensures
            r@ == self@,
    {
        proof {
            use_type_invariant(self);
        }
        match &self.buffer {
            Some(bytes) => slice_subrange(bytes.as_slice(), self.offset, bytes.len()),
            None => {
                let empty: &[u8] = &[];
                assert(empty@ =~= Seq::<u8>::empty());
                empty
            },
        }
    }

    /// Records that the output took the first `written` of the pending
    /// bytes.
    pub fn advance(&mut self, written: usize)
        requires
            written <= old(self)@.len(),
        ensures
            final(self)@ == old(self)@.skip(written as int),
    {
        proof {
            use_type_invariant(&*self);
        }
        let done = match &self.buffer {
            Some(bytes) => {
                let len = bytes.len();
                assert(self@.len() == len - self.offset);
                assert(bytes@.skip(self.offset as int).skip(written as int) =~= bytes@.skip(
                    self.offset + written,
                ));
                self.offset + written == len
            },
            None => true,
        };
        if done {
            assert(self@.skip(written as int) =~= Seq::<u8>::empty());
            self.buffer = None;
        } else {
            self.offset = self.offset + written;
        }
    }
}

/// A sink that writes records of type `T` to an output as JSON Lines.
#[derive(Debug)]
pub struct JsonLinesSink<W, T> {
    inner: W,
    buffer: PendingBuffer,
    _input: PhantomData<T>,
}

impl<W, T> JsonLinesSink<W, T> {
    /// The output that the sink writes to.
    pub closed spec fn stream(&self) -> W {
        self.inner
    }

    /// The bytes of the submitted record that the output has not taken yet;
    /// empty when the sink is ready for the next record.
    pub closed spec fn pending(&self) -> Seq<u8> {
        self.buffer@
    }

    /// A sink on `writer` with nothing pending.
    pub fn new(writer: W) -> (r: Self)
        ensures
            r.stream() == writer,
            r.pending().len() == 0,
    {
        JsonLinesSink { inner: writer, buffer: PendingBuffer::new(), _input: PhantomData }
    }

    /// Whether the sink can take a record: nothing is pending.
    pub fn is_ready(&self) -> (r: bool)
        ensures
            r == (self.pending().len() == 0),
    {
        self.buffer.is_empty()
    }

    /// The step that leads towards `goal` from where the sink is.
    pub fn next_step(&self, goal: SinkGoal) -> (r: SinkStep)
        ensures
            r == step_towards(goal, self.pending()),
    {
        self.buffer.next_step(goal)
    }

    /// Takes a record that the caller has encoded: the JSON and a newline
    /// become the pending bytes.  Where the codec gave an error instead, the
    /// error comes back and the sink stays ready.
    ///
    /// The sink must be ready: a record is never taken while bytes of the one
    /// before are pending.
    pub fn start_send_encoded(&mut self, encoded: Result<Vec<u8>, serde_json::Error>) -> (r:
        Result<(), JsonLinesError>)
        requires
            old(self).pending().len() == 0,
        ensures
            final(self).stream() == old(self).stream(),
            submitted(bytes_of(encoded), final(self).pending(), r),
    {
        match frame_encoded(encoded) {
            Ok(line) => {
                self.buffer.load(line);
                Ok(())
            },
            Err(e) => Err(e),
        }
    }

    /// The pending bytes, for the caller to write to the output.
    pub fn unwritten(&self) -> (r: &[u8])
        ensures
            r@ == self.pending(),
    {
        self.buffer.unwritten()
    }

    /// Records that the output took the first `written` of the pending
    /// bytes.  When none is left the sink is ready again.
    pub fn advance(&mut self, written: usize)
        requires
            written <= old(self).pending().len(),
        ensures
            final(self).pending() == old(self).pending().skip(written as int),
            final(self).stream() == old(self).stream(),
    {
        self.buffer.advance(written);
    }

    /// Lends the output for change together with the pending bytes, so that
    /// the caller can write the one to the other.
    pub fn parts(&mut self) -> (r: (&mut W, &[u8]))
        ensures
            *r.0 == old(self).stream(),
            r.1@ == old(self).pending(),
            final(self).stream() == *final(r.0),
            final(self).pending() == old(self).pending(),
    {
        (&mut self.inner, self.buffer.unwritten())
    }

    /// Lends the output.
    pub fn get_ref(&self) -> (r: &W)
        ensures
            *r == self.stream(),
    {
        &self.inner
    }

    /// Gives the output back.  Pending bytes are dropped with the sink.
    pub fn into_inner(self) -> (r: W)
        ensures
            r == self.stream(),
    {
        self.inner
    }

    /// Takes the sink apart into its output and its pending bytes.
    pub fn into_parts(self) -> (r: (W, PendingBuffer))
        ensures
            r.0 == self.stream(),
            r.1@ == self.pending(),
    {
        (self.inner, self.buffer)
    }

    /// Puts a sink together from an output and pending bytes.
    pub fn from_parts(writer: W, buffer: PendingBuffer) -> (r: Self)
        ensures
            r.stream() == writer,
            r.pending() == buffer@,
    {
        JsonLinesSink { inner: writer, buffer, _input: PhantomData }
    }
}

impl<W> JsonLinesSink<W, serde_json::Value> {
    /// Takes a record: it is encoded at once, and its JSON and a newline
    /// become the pending bytes.  A value without a JSON form gives an error
    /// and leaves the sink ready.
    ///
    /// The sink must be ready: a record is never taken while bytes of the one
    /// before are pending.
    pub fn start_send(&mut self, item: serde_json::Value) -> (r: Result<(), JsonLinesError>)
        requires
            old(self).pending().len() == 0,
        ensures
            final(self).stream() == old(self).stream(),
            submitted(json_text(item), final(self).pending(), r),
    {
        self.start_send_encoded(to_vec(&item))
    }
}

impl<T> JsonLinesSink<Vec<u8>, T> {
    /// Writes the pending bytes to the output until none is left.
    pub fn poll_flush_buffer(&mut self) -> (r: Result<(), JsonLinesError>)
        ensures
            r is Ok,
            final(self).stream()@ == old(self).stream()@ + old(self).pending(),
            final(self).pending().len() == 0,
    {
        while !self.is_ready()
            invariant
                self.stream()@ + self.pending() == old(self).stream()@ + old(self).pending(),
            decreases self.pending().len(),
        {
            let ghost before = self.stream()@;
            let ghost rest = self.pending();
            let (out, bytes) = self.parts();
            out.extend_from_slice(bytes);
            let written = bytes.len();
            self.advance(written);
            assert(self.stream()@ + self.pending() =~= before + rest);
        }
        assert(self.stream()@ + self.pending() =~= self.stream()@);
        Ok(())
    }

    /// Makes the sink ready for the next record: writes what is pending.
    pub fn poll_ready(&mut self) -> (r: Result<(), JsonLinesError>)
        ensures
            r is Ok,
            final(self).stream()@ == old(self).stream()@ + old(self).pending(),
            final(self).pending().len() == 0,
    {
        self.poll_flush_buffer()
    }

    /// Writes what is pending and flushes the output, which for a byte
    /// buffer is nothing to do.
    pub fn poll_flush(&mut self) -> (r: Result<(), JsonLinesError>)
        ensures
            r is Ok,
            final(self).stream()@ == old(self).stream()@ + old(self).pending(),
            final(self).pending().len() == 0,
    {
        self.poll_flush_buffer()
    }

    /// Writes what is pending and closes the output, which for a byte buffer
    /// is nothing to do.
    pub fn poll_close(&mut self) -> (r: Result<(), JsonLinesError>)
        ensures
            r is Ok,
            final(self).stream()@ == old(self).stream()@ + old(self).pending(),
            final(self).pending().len() == 0,
    {
        self.poll_flush_buffer()
    }
}

} // verus!
