//! The stream facade: an assembler of records with a provider's decoder on
//! top, polled one item at a time.
//!
//! The facade does no input or output. Its caller owns the byte source: it
//! polls the stream, and whenever the stream needs more data it polls the
//! source and reports back what the source did.

use crate::assembler::{lemma_pull_progress, AssemblerView, Pulled, RecordAssembler};
use crate::stream::{
    accept, concat, items_of_body, lemma_next_item_progress, lemma_run_decodes_whole_body,
    liveness, meets_end_marker, next_item, poll, poll_completes, run, Decoded,
    SourceEvent, StreamPoll,
};
use std::marker::PhantomData;
use vstd::prelude::*;

verus! {

/// The decoder of a provider: what it makes of one record.
pub trait RecordDecoder {
    /// One item of the stream: an event, or the failure that took its place.
    type Item;

    /// The value of an item.
    type ItemView;

    /// The value of an item.
    spec fn item_view(item: Self::Item) -> Self::ItemView;

    /// What a record decodes to.
    spec fn decoded(record: Seq<char>) -> Decoded<Self::ItemView>;

    /// The value of the item that reports a transport failure.
    spec fn transport_failure(error: reqwest::Error) -> Self::ItemView;

    /// Decodes one record.
    fn decode(record: &str) -> (out: Decoded<Self::Item>)
        ensures
            match out {
                Decoded::Skip => Self::decoded(record@) is Skip,
                Decoded::Item(item) => Self::decoded(record@) == Decoded::Item(
                    Self::item_view(item),
                ),
                Decoded::Done => Self::decoded(record@) is Done,
            },
    ;

    /// The item that reports a transport failure.
    fn failed(error: reqwest::Error) -> (out: Self::Item)
        ensures
            Self::item_view(out) == Self::transport_failure(error),
    ;
}

/// The decoder `D` as a function on records.
pub open spec fn decoder_of<D: RecordDecoder>() -> spec_fn(Seq<char>) -> Decoded<D::ItemView> {
    |record: Seq<char>| D::decoded(record)
}

/// The decoder `D` as a function from transport errors to the items that
/// report them.
pub open spec fn failure_of<D: RecordDecoder>() -> spec_fn(reqwest::Error) -> D::ItemView {
    |error: reqwest::Error| D::transport_failure(error)
}

/// The values of a list of items.
pub open spec fn items_view<D: RecordDecoder>(items: Seq<D::Item>) -> Seq<D::ItemView> {
    items.map_values(|item: D::Item| D::item_view(item))
}

/// The state of a stream: that of its assembler, and whether a record has
/// marked the end of the logical stream.
pub struct StreamView {
    pub assembler: AssemblerView,
    pub completed: bool,
}

impl StreamView {
    /// The state of a stream that has seen nothing yet.
    pub open spec fn initial() -> StreamView {
        StreamView { assembler: AssemblerView::initial(), completed: false }
    }

    /// Whether the stream is over: nothing will come out of it any more.
    pub open spec fn ended(self) -> bool {
        self.assembler.ended()
    }
}

/// A stream of decoded items.
pub struct EventStream<D: RecordDecoder> {
    assembler: RecordAssembler,
    completed: bool,
    decoder: PhantomData<D>,
}

impl<D: RecordDecoder> View for EventStream<D> {
    type V = StreamView;

    closed spec fn view(&self) -> StreamView {
        StreamView { assembler: self.assembler@, completed: self.completed }
    }
}

impl<D: RecordDecoder> EventStream<D> {
    /// A stream that has seen nothing yet.
    pub fn new() -> (out: Self)
        ensures
            out@ == StreamView::initial(),
    {
        EventStream { assembler: RecordAssembler::new(), completed: false, decoder: PhantomData }
    }

    /// Whether the stream is over: nothing will come out of it any more.
    pub fn is_ended(&self) -> (out: bool)
        ensures
            out == self@.ended(),
    {
        self.assembler.is_ended()
    }

    /// Whether a record has marked the end of the logical stream: the stream
    /// then ended as the provider meant it to, and not because the source
    /// ran dry or failed.
    pub fn is_completed(&self) -> (out: bool)
        ensures
            out == self@.completed,
    {
        self.completed
    }

    /// One step of the stream. The caller reports what the byte source did
    /// since the last step; the stream takes that in and extracts records up
    /// to the next item. On `NeedMoreData` the caller polls the source and
    /// reports back; after an item it reports `Resumed`. A transport failure
    /// is handed out as the last item. A record that marks the end of the
    /// logical stream ends it: what follows is dropped, and the stream is
    /// completed.
    pub fn poll_next(&mut self, event: SourceEvent) -> (out: StreamPoll<D::Item>)
        ensures
            (final(self)@.assembler, out.map(|item: D::Item| D::item_view(item))) == poll(
                old(self)@.assembler,
                event@,
                decoder_of::<D>(),
                failure_of::<D>(),
            ),
            final(self)@.completed == (old(self)@.completed || poll_completes(
                old(self)@.assembler,
                event@,
                decoder_of::<D>(),
            )),
    {
        let ghost goal = poll(
            old(self)@.assembler,
            event@,
            decoder_of::<D>(),
            failure_of::<D>(),
        );
        let ghost marked = meets_end_marker(
            accept(old(self)@.assembler, event@),
            decoder_of::<D>(),
        );
        match event {
            SourceEvent::Resumed => {},
            SourceEvent::Chunk(bytes) => {
                self.assembler.push_chunk(bytes);
            },
            SourceEvent::Finished => {
                self.assembler.finish();
            },
            SourceEvent::Failed(e) => {
                if !self.assembler.is_exhausted() {
                    self.assembler.abort();
                    return StreamPoll::Item(D::failed(e));
                }
            },
        }
        loop
            invariant
                next_item(self@.assembler, decoder_of::<D>()) == goal,
                meets_end_marker(self@.assembler, decoder_of::<D>()) == marked,
                self@.completed == old(self)@.completed,
                goal == poll(
                    old(self)@.assembler,
                    event@,
                    decoder_of::<D>(),
                    failure_of::<D>(),
                ),
                !(event@ is Failed && !old(self)@.assembler.exhausted),
                marked == meets_end_marker(
                    accept(old(self)@.assembler, event@),
                    decoder_of::<D>(),
                ),
            decreases self@.assembler.buffer.len(),
        {
            proof {
                lemma_pull_progress(self@.assembler);
            }
            match self.assembler.pull_next_record() {
                Pulled::Record(record) => {
                    match D::decode(record.as_str()) {
                        Decoded::Item(item) => {
                            return StreamPoll::Item(item);
                        },
                        Decoded::Skip => {},
                        Decoded::Done => {
                            self.assembler.abort();
                            self.completed = true;
                            return StreamPoll::EndOfStream;
                        },
                    }
                },
                Pulled::NeedMoreData => {
                    return StreamPoll::NeedMoreData;
                },
                Pulled::EndOfStream => {
                    return StreamPoll::EndOfStream;
                },
            }
        }
    }

    /// Decodes a whole body that is at hand as a list of chunks: the items
    /// that a caller sees who polls the stream to its end. They are the
    /// items of the bytes of the chunks laid end to end: where the body is
    /// cut into chunks has no bearing on them.
    pub fn collect(chunks: &Vec<Vec<u8>>) -> (out: Vec<D::Item>)
        ensures
            items_view::<D>(out@) == items_of_body(
                concat(chunks.deep_view()),
                decoder_of::<D>(),
            ),
    {
        let ghost parts = chunks.deep_view();
        let mut stream = EventStream::<D>::new();
        let mut out: Vec<D::Item> = Vec::new();
        let mut i: usize = 0;
        let mut event = SourceEvent::Resumed;
        proof {
            assert(parts.skip(0) =~= parts);
            assert(items_view::<D>(out@) =~= Seq::<D::ItemView>::empty());
            assert(Seq::<D::ItemView>::empty() + run(
                AssemblerView::initial(),
                parts,
                decoder_of::<D>(),
            ) =~= run(AssemblerView::initial(), parts, decoder_of::<D>()));
        }
        loop
            invariant
                i <= chunks.len(),
                parts == chunks.deep_view(),
                !(event@ is Failed),
                items_view::<D>(out@) + run(
                    accept(stream@.assembler, event@),
                    parts.skip(i as int),
                    decoder_of::<D>(),
                ) == run(AssemblerView::initial(), parts, decoder_of::<D>()),
            ensures
                items_view::<D>(out@) == run(AssemblerView::initial(), parts, decoder_of::<D>()),
            decreases
                    chunks.len() - i,
                    liveness(accept(stream@.assembler, event@)),
                    accept(stream@.assembler, event@).buffer.len(),
        {
            let ghost before = accept(stream@.assembler, event@);
            let ghost rest = parts.skip(i as int);
            let ghost seen = items_view::<D>(out@);
            proof {
                lemma_next_item_progress(before, decoder_of::<D>());
            }
            match stream.poll_next(event) {
                StreamPoll::Item(item) => {
                    out.push(item);
                    event = SourceEvent::Resumed;
                    proof {
                        let x = D::item_view(item);
                        let after = run(stream@.assembler, rest, decoder_of::<D>());
                        assert(items_view::<D>(out@) =~= seen + seq![x]);
                        assert(seen + (seq![x] + after) =~= (seen + seq![x]) + after);
                    }
                },
                StreamPoll::NeedMoreData => {
                    if i < chunks.len() {
                        proof {
                            assert(rest[0] == parts[i as int]);
                            assert(rest.drop_first() =~= parts.skip(i + 1));
                            assert(chunks.deep_view()[i as int] == chunks@[i as int]@);
                        }
                        event = SourceEvent::Chunk(chunks[i].as_slice());
                        i = i + 1;
                    } else {
                        event = SourceEvent::Finished;
                    }
                },
                StreamPoll::EndOfStream => {
                    proof {
                        assert(seen + Seq::<D::ItemView>::empty() =~= seen);
                    }
                    break ;
                },
            }
        }
        proof {
            lemma_run_decodes_whole_body(parts, decoder_of::<D>());
        }
        out
    }
}

} // verus!
