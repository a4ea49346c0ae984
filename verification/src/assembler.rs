//! The record assembler: it gathers chunks of bytes into a buffer and hands
//! out the records that the buffer holds, one at a time.
//!
//! The buffer holds bytes as they came. A record is a line: the bytes before
//! a line feed, decoded permissively and trimmed. What is left when the
//! source is exhausted and holds no line feed is one last record, decoded
//! and handed out as it stands. Since a record is decoded as a whole, a
//! character whose bytes arrive in two chunks is decoded as one character:
//! where chunks are cut has no bearing on the records.

use crate::text::{
    decode_lossy, decoded_text, find_line_feed, lemma_line_feed_index, line_feed_index, trim,
    trimmed,
};
use vstd::prelude::*;
use vstd::slice::{slice_subrange, slice_to_vec};

verus! {

/// The state of an assembler: the bytes not yet handed out, and whether the
/// source has reported its end.
pub struct AssemblerView {
    pub buffer: Seq<u8>,
    pub exhausted: bool,
}

/// What one extraction gives, as a mathematical value.
pub enum PulledView {
    Record(Seq<char>),
    NeedMoreData,
    EndOfStream,
}

/// What one extraction gives.
#[derive(Debug)]
pub enum Pulled {
    /// A complete record.
    Record(String),
    /// The buffer holds no complete record and the source may deliver more.
    NeedMoreData,
    /// The source is exhausted and the buffer is empty.
    EndOfStream,
}

impl View for Pulled {
    type V = PulledView;

    open spec fn view(&self) -> PulledView {
        match self {
            Pulled::Record(r) => PulledView::Record(r@),
            Pulled::NeedMoreData => PulledView::NeedMoreData,
            Pulled::EndOfStream => PulledView::EndOfStream,
        }
    }
}

impl AssemblerView {
    /// The state of a fresh assembler.
    pub open spec fn initial() -> AssemblerView {
        AssemblerView { buffer: Seq::empty(), exhausted: false }
    }

    /// Whether the buffer holds a line feed.
    pub open spec fn has_line(self) -> bool {
        line_feed_index(self.buffer) < self.buffer.len()
    }

    /// Whether nothing is left to hand out, now or later.
    pub open spec fn ended(self) -> bool {
        self.exhausted && self.buffer.len() == 0
    }

    /// The state after a chunk of bytes arrived. Once the source is exhausted
    /// nothing is taken in any more.
    pub open spec fn fed(self, chunk: Seq<u8>) -> AssemblerView {
        if self.exhausted {
            self
        } else {
            AssemblerView { buffer: self.buffer + chunk, exhausted: false }
        }
    }

    /// The state after the source reported its end.
    pub open spec fn finished(self) -> AssemblerView {
        AssemblerView { buffer: self.buffer, exhausted: true }
    }

    /// The state after the stream was cut off: nothing is left.
    pub open spec fn aborted(self) -> AssemblerView {
        AssemblerView { buffer: Seq::empty(), exhausted: true }
    }

    /// One extraction: the state after it, and what it hands out. A line
    /// feed ends a record: the bytes before it are decoded and trimmed, and
    /// the buffer keeps what follows it. With no line feed, an exhausted
    /// source makes the rest of the buffer the last record, decoded as it
    /// stands.
    pub open spec fn pull(self) -> (AssemblerView, PulledView) {
        let i = line_feed_index(self.buffer);
        if i < self.buffer.len() {
            (
                AssemblerView { buffer: self.buffer.skip(i + 1), exhausted: self.exhausted },
                PulledView::Record(trimmed(decoded_text(self.buffer.take(i)))),
            )
        } else if !self.exhausted {
            (self, PulledView::NeedMoreData)
        } else if self.buffer.len() > 0 {
            (self.aborted(), PulledView::Record(decoded_text(self.buffer)))
        } else {
            (self, PulledView::EndOfStream)
        }
    }
}

/// An extraction that hands out a record shortens the buffer; one that
/// hands out none leaves the state as it was.
pub proof fn lemma_pull_progress(s: AssemblerView)
    ensures
        s.pull().1 is Record ==> s.pull().0.buffer.len() < s.buffer.len(),
        s.pull().1 is Record ==> s.pull().0.exhausted == s.exhausted,
        !(s.pull().1 is Record) ==> s.pull().0 == s,
        s.pull().1 is NeedMoreData <==> !s.has_line() && !s.exhausted,
        s.pull().1 is EndOfStream <==> s.ended(),
{
    lemma_line_feed_index(s.buffer);
}

/// The line and record assembler.
pub struct RecordAssembler {
    buffer: Vec<u8>,
    exhausted: bool,
}

impl View for RecordAssembler {
    type V = AssemblerView;

    closed spec fn view(&self) -> AssemblerView {
        AssemblerView { buffer: self.buffer@, exhausted: self.exhausted }
    }
}

impl RecordAssembler {
    /// An assembler with an empty buffer, whose source has not ended.
    pub fn new() -> (out: RecordAssembler)
        ensures
            out@ == AssemblerView::initial(),
    {
        RecordAssembler { buffer: Vec::new(), exhausted: false }
    }

    /// Whether the source has reported its end.
    pub fn is_exhausted(&self) -> (out: bool)
        ensures
            out == self@.exhausted,
    {
        self.exhausted
    }

    /// Whether nothing is left to hand out, now or later.
    pub fn is_ended(&self) -> (out: bool)
        ensures
            out == self@.ended(),
    {
        self.exhausted && self.buffer.len() == 0
    }

    /// The bytes that are waiting in the buffer.
    pub fn buffered(&self) -> (out: &[u8])
        ensures
            out@ == self@.buffer,
    {
        self.buffer.as_slice()
    }

    /// Takes in a chunk of bytes: they are appended to the buffer as they
    /// are.
    pub fn push_chunk(&mut self, chunk: &[u8])
        ensures
            final(self)@ == old(self)@.fed(chunk@),
    {
        if !self.exhausted {
            let mut bytes = slice_to_vec(chunk);
            self.buffer.append(&mut bytes);
        }
    }

    /// Notes that the source has reported its end.
    pub fn finish(&mut self)
        ensures
            final(self)@ == old(self)@.finished(),
    {
        self.exhausted = true;
    }

    /// Cuts the stream off: the buffer is emptied and nothing more is taken in.
    pub fn abort(&mut self)
        ensures
            final(self)@ == old(self)@.aborted(),
    {
        self.buffer = Vec::new();
        self.exhausted = true;
    }

    /// Extracts the next record. A line feed in the buffer ends a record: the
    /// bytes before it are decoded permissively and handed out trimmed, and
    /// the buffer keeps what follows it. With no line feed, an exhausted
    /// source makes the rest of the buffer the last record; otherwise more
    /// data is needed.
    pub fn pull_next_record(&mut self) -> (out: Pulled)
        ensures
            (final(self)@, out@) == old(self)@.pull(),
    {
        match find_line_feed(self.buffer.as_slice()) {
            Some(i) => {
                let n = self.buffer.len();
                assert(i < n);
                let rest = self.buffer.split_off(i + 1);
                let line = decode_lossy(slice_subrange(self.buffer.as_slice(), 0, i));
                let record = trim(line.as_str()).to_owned();
                proof {
                    let whole = old(self)@.buffer;
                    assert(whole.subrange(0, i + 1).subrange(0, i as int) =~= whole.take(i as int));
                    assert(whole.subrange(i + 1, whole.len() as int) =~= whole.skip(i + 1));
                }
                self.buffer = rest;
                Pulled::Record(record)
            },
            None => {
                if !self.exhausted {
                    Pulled::NeedMoreData
                } else if self.buffer.len() == 0 {
                    Pulled::EndOfStream
                } else {
                    let record = decode_lossy(self.buffer.as_slice());
                    self.buffer = Vec::new();
                    Pulled::Record(record)
                }
            },
        }
    }
}

} // verus!
