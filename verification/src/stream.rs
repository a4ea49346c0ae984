//! The stream facade, as far as the three providers share it: what comes in
//! from the byte source, what goes out to the caller, and the mathematical
//! account of a whole stream.
//!
//! A provider's stream is an assembler with a decoder on top. The decoder is
//! a parameter here, `decode`: it says of each record whether it is skipped,
//! gives an item, or marks the end of the logical stream.

use crate::assembler::{lemma_pull_progress, AssemblerView, PulledView};
use crate::text::{
    decoded_text, lemma_encode_concat, lemma_encode_line_feed, lemma_encode_without_line_feed,
    lemma_line_feed_index, lemma_line_feed_index_is, lemma_newline_index, line_feed_index,
    newline_index, trimmed, LINE_FEED,
};
use vstd::prelude::*;
use vstd::utf8::{
    decode_utf8, decode_utf8_encode_utf8, encode_scalar, encode_utf8, encode_utf8_decode_utf8,
    encode_utf8_valid_utf8, valid_utf8,
};

verus! {

/// `reqwest::Error`, the error of the transport: carried, never read.
#[verifier::external_type_specification]
#[verifier::external_body]
pub struct ExTransportError(reqwest::Error);

/// The message of a transport error, as its `Display` gives it. Nothing is
/// claimed of the text.
#[verifier::external_body]
pub(crate) fn transport_error_text(error: &reqwest::Error) -> String {
    error.to_string()
}

/// What a decoder makes of one record.
pub enum Decoded<T> {
    /// Framing: the record carries nothing.
    Skip,
    /// The record carries an item, an event or a decode failure.
    Item(T),
    /// The record marks the end of the logical stream.
    Done,
}

/// What the byte source reported since the stream was last polled.
pub enum SourceEvent<'a> {
    /// Nothing new: the caller asks for the next item.
    Resumed,
    /// A chunk of bytes arrived.
    Chunk(&'a [u8]),
    /// The transport failed.
    Failed(reqwest::Error),
    /// The body ended.
    Finished,
}

/// What the byte source reported, as a mathematical value.
pub enum SourceEventView {
    Resumed,
    Chunk(Seq<u8>),
    Failed(reqwest::Error),
    Finished,
}

impl<'a> View for SourceEvent<'a> {
    type V = SourceEventView;

    open spec fn view(&self) -> SourceEventView {
        match self {
            SourceEvent::Resumed => SourceEventView::Resumed,
            SourceEvent::Chunk(bytes) => SourceEventView::Chunk(bytes@),
            SourceEvent::Failed(error) => SourceEventView::Failed(*error),
            SourceEvent::Finished => SourceEventView::Finished,
        }
    }
}

/// What a poll of the stream gives.
#[derive(Debug)]
pub enum StreamPoll<T> {
    /// The next item of the stream.
    Item(T),
    /// No item is ready: the caller polls the byte source and reports back.
    NeedMoreData,
    /// The stream is over.
    EndOfStream,
}

impl<T> StreamPoll<T> {
    /// This result with its item seen through `f`.
    pub open spec fn map<U>(self, f: spec_fn(T) -> U) -> StreamPoll<U> {
        match self {
            StreamPoll::Item(x) => StreamPoll::Item(f(x)),
            StreamPoll::NeedMoreData => StreamPoll::NeedMoreData,
            StreamPoll::EndOfStream => StreamPoll::EndOfStream,
        }
    }
}

/// The state after the source's report was taken in, before any extraction.
pub open spec fn accept(s: AssemblerView, event: SourceEventView) -> AssemblerView {
    match event {
        SourceEventView::Resumed => s,
        SourceEventView::Chunk(bytes) => s.fed(bytes),
        SourceEventView::Failed(_) => if s.exhausted {
            s
        } else {
            s.aborted()
        },
        SourceEventView::Finished => s.finished(),
    }
}

/// Extraction up to the next item: records are pulled and decoded until one
/// gives an item, until one marks the end, or until the buffer holds no more.
pub open spec fn next_item<T>(s: AssemblerView, decode: spec_fn(Seq<char>) -> Decoded<T>) -> (
    AssemblerView,
    StreamPoll<T>,
)
    decreases s.buffer.len(),
    via next_item_decreases::<T>
{
    match s.pull() {
        (s2, PulledView::Record(r)) => match decode(r) {
            Decoded::Item(x) => (s2, StreamPoll::Item(x)),
            Decoded::Skip => next_item(s2, decode),
            Decoded::Done => (s2.aborted(), StreamPoll::EndOfStream),
        },
        (s2, PulledView::NeedMoreData) => (s2, StreamPoll::NeedMoreData),
        (s2, PulledView::EndOfStream) => (s2, StreamPoll::EndOfStream),
    }
}

#[via_fn]
proof fn next_item_decreases<T>(s: AssemblerView, decode: spec_fn(Seq<char>) -> Decoded<T>) {
    lemma_pull_progress(s);
}

/// Whether the extraction up to the next item stops at a record that marks
/// the end of the logical stream.
pub open spec fn meets_end_marker<T>(
    s: AssemblerView,
    decode: spec_fn(Seq<char>) -> Decoded<T>,
) -> bool
    decreases s.buffer.len(),
    via meets_end_marker_decreases::<T>
{
    match s.pull() {
        (s2, PulledView::Record(r)) => match decode(r) {
            Decoded::Item(_) => false,
            Decoded::Skip => meets_end_marker(s2, decode),
            Decoded::Done => true,
        },
        _ => false,
    }
}

#[via_fn]
proof fn meets_end_marker_decreases<T>(s: AssemblerView, decode: spec_fn(Seq<char>) -> Decoded<T>) {
    lemma_pull_progress(s);
}

/// One poll of a stream: the source's report is taken in, then records are
/// extracted up to the next item. A transport failure cuts the stream off
/// and is itself the last item: `failure` makes the item of the error.
pub open spec fn poll<T>(
    s: AssemblerView,
    event: SourceEventView,
    decode: spec_fn(Seq<char>) -> Decoded<T>,
    failure: spec_fn(reqwest::Error) -> T,
) -> (AssemblerView, StreamPoll<T>) {
    match event {
        SourceEventView::Failed(error) if !s.exhausted => (
            s.aborted(),
            StreamPoll::Item(failure(error)),
        ),
        _ => next_item(accept(s, event), decode),
    }
}

/// Whether a poll ends at a record that marks the end of the logical stream.
pub open spec fn poll_completes<T>(
    s: AssemblerView,
    event: SourceEventView,
    decode: spec_fn(Seq<char>) -> Decoded<T>,
) -> bool {
    match event {
        SourceEventView::Failed(_) if !s.exhausted => false,
        _ => meets_end_marker(accept(s, event), decode),
    }
}

/// The chunks of a body, laid end to end.
pub open spec fn concat(chunks: Seq<Seq<u8>>) -> Seq<u8>
    decreases chunks.len(),
{
    if chunks.len() == 0 {
        Seq::empty()
    } else {
        chunks[0] + concat(chunks.drop_first())
    }
}

/// The records of a whole body: the text of each line, trimmed, and after
/// the last line feed the text of whatever is left, if anything, as it
/// stands.
pub open spec fn records_of(body: Seq<u8>) -> Seq<Seq<char>>
    decreases body.len(),
    via records_of_decreases
{
    let i = line_feed_index(body);
    if i < body.len() {
        seq![trimmed(decoded_text(body.take(i)))] + records_of(body.skip(i + 1))
    } else if body.len() > 0 {
        seq![decoded_text(body)]
    } else {
        Seq::empty()
    }
}

#[via_fn]
proof fn records_of_decreases(body: Seq<u8>) {
    lemma_line_feed_index(body);
}

/// The items that a sequence of records gives: each record decoded in turn,
/// up to the first that marks the end.
pub open spec fn items_of<T>(records: Seq<Seq<char>>, decode: spec_fn(Seq<char>) -> Decoded<T>) -> Seq<T>
    decreases records.len(),
{
    if records.len() == 0 {
        Seq::empty()
    } else {
        match decode(records[0]) {
            Decoded::Item(x) => seq![x] + items_of(records.drop_first(), decode),
            Decoded::Skip => items_of(records.drop_first(), decode),
            Decoded::Done => Seq::empty(),
        }
    }
}

/// The items of a whole body.
pub open spec fn items_of_body<T>(body: Seq<u8>, decode: spec_fn(Seq<char>) -> Decoded<T>) -> Seq<T> {
    items_of(records_of(body), decode)
}

/// The measure by which a run of a stream goes down: an exhausted source
/// counts less than a live one.
pub open spec fn liveness(s: AssemblerView) -> nat {
    if s.exhausted {
        0
    } else {
        1
    }
}

/// The items that a caller sees who polls a stream to its end, while the
/// source delivers `chunks` one by one and then reports its end. After each
/// item the caller asks again; when more data is needed the next chunk is
/// fed, or the end is reported when none is left.
pub open spec fn run<T>(
    s: AssemblerView,
    chunks: Seq<Seq<u8>>,
    decode: spec_fn(Seq<char>) -> Decoded<T>,
) -> Seq<T>
    decreases chunks.len(), liveness(s), s.buffer.len(),
    via run_decreases::<T>
{
    match next_item(s, decode) {
        (s2, StreamPoll::Item(x)) => seq![x] + run(s2, chunks, decode),
        (s2, StreamPoll::NeedMoreData) => if chunks.len() > 0 {
            run(s2.fed(chunks[0]), chunks.drop_first(), decode)
        } else {
            run(s2.finished(), chunks, decode)
        },
        (s2, StreamPoll::EndOfStream) => Seq::empty(),
    }
}

#[via_fn]
proof fn run_decreases<T>(
    s: AssemblerView,
    chunks: Seq<Seq<u8>>,
    decode: spec_fn(Seq<char>) -> Decoded<T>,
) {
    lemma_next_item_progress(s, decode);
}

/// What the extraction up to the next item does to the state: an item
/// shortens the buffer; a call for more data comes only from a live source
/// and only when every complete record has been drained, so that the buffer
/// holds no line feed; and the end leaves nothing behind.
pub proof fn lemma_next_item_progress<T>(s: AssemblerView, decode: spec_fn(Seq<char>) -> Decoded<T>)
    ensures
        next_item(s, decode).1 is Item ==> next_item(s, decode).0.buffer.len() < s.buffer.len()
            && next_item(s, decode).0.exhausted == s.exhausted,
        next_item(s, decode).1 is NeedMoreData ==> !s.exhausted && !next_item(
            s,
            decode,
        ).0.exhausted && next_item(s, decode).0.buffer.len() <= s.buffer.len() && !next_item(
            s,
            decode,
        ).0.has_line(),
        next_item(s, decode).1 is EndOfStream ==> next_item(s, decode).0.ended(),
    decreases s.buffer.len(),
{
    lemma_pull_progress(s);
    match s.pull() {
        (s2, PulledView::Record(r)) => match decode(r) {
            Decoded::Skip => {
                lemma_next_item_progress(s2, decode);
            },
            _ => {},
        },
        _ => {},
    }
}

/// The bytes that the stream still has to work through: its buffer, and
/// what a live source will deliver.
pub open spec fn outstanding(s: AssemblerView, chunks: Seq<Seq<u8>>) -> Seq<u8> {
    if s.exhausted {
        s.buffer
    } else {
        s.buffer + concat(chunks)
    }
}

/// A line that is complete in `a` is the first record of `a + b`, whatever
/// `b` holds.
pub proof fn lemma_records_of_line(a: Seq<u8>, b: Seq<u8>)
    requires
        line_feed_index(a) < a.len(),
    ensures
        records_of(a + b) == seq![trimmed(decoded_text(a.take(line_feed_index(a))))] + records_of(
            a.skip(line_feed_index(a) + 1) + b,
        ),
{
    let i = line_feed_index(a);
    lemma_line_feed_index(a);
    assert forall|j: int| 0 <= j < i implies (a + b)[j] != LINE_FEED by {
        assert((a + b)[j] == a[j]);
    }
    assert((a + b)[i] == a[i]);
    lemma_line_feed_index_is(a + b, i);
    assert((a + b).take(i) =~= a.take(i));
    assert((a + b).skip(i + 1) =~= a.skip(i + 1) + b);
}

/// The extraction up to the next item, held against the records of the
/// bytes that are outstanding: an item is the first that those records give, a call
/// for more data has dropped only records that give nothing, and the end
/// comes only when the records give no item.
pub proof fn lemma_next_item_items<T>(
    s: AssemblerView,
    tail: Seq<u8>,
    decode: spec_fn(Seq<char>) -> Decoded<T>,
)
    requires
        s.exhausted ==> tail.len() == 0,
    ensures
        match next_item(s, decode) {
            (s2, StreamPoll::Item(x)) => items_of_body(s.buffer + tail, decode) == seq![x]
                + items_of_body(s2.buffer + tail, decode),
            (s2, StreamPoll::NeedMoreData) => !s2.has_line() && !s2.exhausted && items_of_body(
                s.buffer + tail,
                decode,
            ) == items_of_body(s2.buffer + tail, decode),
            (s2, StreamPoll::EndOfStream) => items_of_body(s.buffer + tail, decode)
                == Seq::<T>::empty(),
        },
    decreases s.buffer.len(),
{
    lemma_pull_progress(s);
    lemma_line_feed_index(s.buffer);
    let i = line_feed_index(s.buffer);
    let all = records_of(s.buffer + tail);
    if i < s.buffer.len() {
        lemma_records_of_line(s.buffer, tail);
        let s2 = s.pull().0;
        assert(all[0] == trimmed(decoded_text(s.buffer.take(i))));
        assert(all.drop_first() =~= records_of(s2.buffer + tail));
        if decode(all[0]) is Skip {
            lemma_next_item_items(s2, tail, decode);
        }
    } else if s.exhausted {
        assert(s.buffer + tail =~= s.buffer);
        if s.buffer.len() > 0 {
            let s2 = s.pull().0;
            assert(all[0] == decoded_text(s.buffer));
            assert(all.drop_first() =~= Seq::<Seq<char>>::empty());
            assert(s2.buffer + tail =~= Seq::<u8>::empty());
            assert(records_of(s2.buffer + tail) =~= Seq::<Seq<char>>::empty());
            assert(items_of(all.drop_first(), decode) =~= items_of_body(s2.buffer + tail, decode));
            lemma_pull_progress(s2);
        } else {
            assert(all =~= Seq::<Seq<char>>::empty());
        }
    }
}

/// A stream that is polled to its end gives the items of the text that was
/// outstanding when the run began.
pub proof fn lemma_run_items<T>(
    s: AssemblerView,
    chunks: Seq<Seq<u8>>,
    decode: spec_fn(Seq<char>) -> Decoded<T>,
)
    ensures
        run(s, chunks, decode) == items_of_body(outstanding(s, chunks), decode),
    decreases chunks.len(), liveness(s), s.buffer.len(),
{
    let tail = if s.exhausted {
        Seq::<u8>::empty()
    } else {
        concat(chunks)
    };
    assert(s.buffer + tail =~= outstanding(s, chunks));
    lemma_next_item_items(s, tail, decode);
    lemma_next_item_progress(s, decode);
    match next_item(s, decode) {
        (s2, StreamPoll::Item(x)) => {
            lemma_run_items(s2, chunks, decode);
            assert(s2.buffer + tail =~= outstanding(s2, chunks));
        },
        (s2, StreamPoll::NeedMoreData) => {
            if chunks.len() > 0 {
                lemma_run_items(s2.fed(chunks[0]), chunks.drop_first(), decode);
                assert(outstanding(s2.fed(chunks[0]), chunks.drop_first()) =~= s2.buffer + tail);
            } else {
                lemma_run_items(s2.finished(), chunks, decode);
                assert(outstanding(s2.finished(), chunks) =~= s2.buffer + tail);
            }
        },
        (s2, StreamPoll::EndOfStream) => {},
    }
}

/// Framing is invariant under chunking: however a body is cut into chunks,
/// one byte at a time and within a character too, a stream that is polled
/// to its end gives the items of the body as a whole.
pub proof fn lemma_run_decodes_whole_body<T>(
    chunks: Seq<Seq<u8>>,
    decode: spec_fn(Seq<char>) -> Decoded<T>,
)
    ensures
        run(AssemblerView::initial(), chunks, decode) == items_of_body(concat(chunks), decode),
{
    lemma_run_items(AssemblerView::initial(), chunks, decode);
    assert(outstanding(AssemblerView::initial(), chunks) =~= concat(chunks));
}

/// Chunking is transparent: two ways of cutting the same bytes into chunks
/// give the same items.
pub proof fn lemma_chunking_is_transparent<T>(
    a: Seq<Seq<u8>>,
    b: Seq<Seq<u8>>,
    decode: spec_fn(Seq<char>) -> Decoded<T>,
)
    requires
        concat(a) == concat(b),
    ensures
        run(AssemblerView::initial(), a, decode) == run(AssemblerView::initial(), b, decode),
{
    lemma_run_decodes_whole_body(a, decode);
    lemma_run_decodes_whole_body(b, decode);
}

/// A body that is delivered in chunks gives the items that it gives when it
/// is delivered as a single chunk.
pub proof fn lemma_chunks_as_single_chunk<T>(
    chunks: Seq<Seq<u8>>,
    decode: spec_fn(Seq<char>) -> Decoded<T>,
)
    ensures
        run(AssemblerView::initial(), chunks, decode) == run(
            AssemblerView::initial(),
            seq![concat(chunks)],
            decode,
        ),
{
    let whole = seq![concat(chunks)];
    assert(concat(whole.drop_first()) =~= Seq::<u8>::empty());
    assert(concat(whole) =~= concat(chunks));
    lemma_chunking_is_transparent(chunks, whole, decode);
}

/// The chunks that deliver a body one byte at a time.
pub open spec fn byte_by_byte(body: Seq<u8>) -> Seq<Seq<u8>> {
    Seq::new(body.len(), |i: int| seq![body[i]])
}

/// A body that is delivered one byte at a time gives the items that it
/// gives when it is delivered as a single chunk.
pub proof fn lemma_byte_by_byte_as_single_chunk<T>(
    body: Seq<u8>,
    decode: spec_fn(Seq<char>) -> Decoded<T>,
)
    ensures
        run(AssemblerView::initial(), byte_by_byte(body), decode) == run(
            AssemblerView::initial(),
            seq![body],
            decode,
        ),
{
    lemma_concat_byte_by_byte(body);
    lemma_chunks_as_single_chunk(byte_by_byte(body), decode);
}

/// The single bytes of a body, laid end to end, are the body.
pub proof fn lemma_concat_byte_by_byte(body: Seq<u8>)
    ensures
        concat(byte_by_byte(body)) == body,
    decreases body.len(),
{
    if body.len() == 0 {
        assert(concat(byte_by_byte(body)) =~= body);
    } else {
        let rest = body.drop_first();
        lemma_concat_byte_by_byte(rest);
        assert(byte_by_byte(body).drop_first() =~= byte_by_byte(rest));
        assert(byte_by_byte(body)[0] == seq![body[0]]);
        assert(seq![body[0]] + rest =~= body);
    }
}

/// The records of a text: each line trimmed, and after the last line feed
/// whatever is left, if anything, as it stands.
pub open spec fn records_of_text(text: Seq<char>) -> Seq<Seq<char>>
    decreases text.len(),
    via records_of_text_decreases
{
    let i = newline_index(text);
    if i < text.len() {
        seq![trimmed(text.take(i))] + records_of_text(text.skip(i + 1))
    } else if text.len() > 0 {
        seq![text]
    } else {
        Seq::empty()
    }
}

#[via_fn]
proof fn records_of_text_decreases(text: Seq<char>) {
    lemma_newline_index(text);
}

/// The records of a body that is the UTF-8 form of a text are the records
/// of that text: the lines of the text, cut at its line feeds.
pub proof fn lemma_records_of_encoded_text(text: Seq<char>)
    ensures
        records_of(encode_utf8(text)) == records_of_text(text),
    decreases text.len(),
{
    lemma_newline_index(text);
    let i = newline_index(text);
    let body = encode_utf8(text);
    encode_utf8_valid_utf8(text);
    encode_utf8_decode_utf8(text);
    if i < text.len() {
        let line = text.take(i);
        let rest = text.skip(i + 1);
        assert(text =~= line + seq!['\n'] + rest);
        lemma_encode_concat(line + seq!['\n'], rest);
        lemma_encode_concat(line, seq!['\n']);
        lemma_encode_line_feed('\n');
        let feed = seq!['\n'];
        assert(feed.drop_first() =~= Seq::<char>::empty());
        assert(encode_utf8(feed.drop_first()) =~= Seq::<u8>::empty());
        assert(encode_utf8(feed) =~= encode_scalar(feed[0] as u32) + encode_utf8(
            feed.drop_first(),
        ));
        assert(encode_utf8(feed) =~= seq![LINE_FEED]);
        assert forall|j: int| 0 <= j < line.len() implies line[j] != '\n' by {
            assert(line[j] == text[j]);
        }
        lemma_encode_without_line_feed(line);
        let head = encode_utf8(line);
        assert(body == head + seq![LINE_FEED] + encode_utf8(rest));
        assert forall|j: int| 0 <= j < head.len() implies body[j] != LINE_FEED by {
            assert(body[j] == head[j]);
        }
        assert(body[head.len() as int] == LINE_FEED);
        lemma_line_feed_index_is(body, head.len() as int);
        assert(body.take(head.len() as int) =~= head);
        assert(body.skip(head.len() as int + 1) =~= encode_utf8(rest));
        encode_utf8_valid_utf8(line);
        encode_utf8_decode_utf8(line);
        lemma_records_of_encoded_text(rest);
    } else {
        assert forall|j: int| 0 <= j < text.len() implies text[j] != '\n' by {}
        lemma_encode_without_line_feed(text);
        lemma_line_feed_index_is(body, body.len() as int);
        if text.len() == 0 {
            assert(body =~= Seq::<u8>::empty());
        } else {
            lemma_encode_concat(seq![text[0]], text.drop_first());
            assert(seq![text[0]] + text.drop_first() =~= text);
            assert(body.len() > 0) by {
                assert(encode_scalar(text[0] as u32).len() > 0);
            }
        }
    }
}

/// A line that is complete in a text is its first record, whatever follows
/// the line.
pub proof fn lemma_records_of_text_line(line: Seq<char>, rest: Seq<char>)
    requires
        forall|j: int| 0 <= j < line.len() ==> line[j] != '\n',
    ensures
        records_of_text(line + seq!['\n'] + rest) == seq![trimmed(line)] + records_of_text(rest),
{
    let text = line + seq!['\n'] + rest;
    lemma_newline_index(text);
    let i = newline_index(text);
    assert(text[line.len() as int] == '\n');
    assert forall|j: int| 0 <= j < line.len() implies text[j] != '\n' by {
        assert(text[j] == line[j]);
    }
    assert(i == line.len()) by {
        if i < line.len() {
            assert(text[i] == '\n');
        }
    }
    assert(text.take(i) =~= line);
    assert(text.skip(i + 1) =~= rest);
}

/// The records of a body that is valid UTF-8 are the records of its text.
pub proof fn lemma_records_of_valid_body(body: Seq<u8>)
    requires
        valid_utf8(body),
    ensures
        records_of(body) == records_of_text(decode_utf8(body)),
{
    decode_utf8_encode_utf8(body);
    lemma_records_of_encoded_text(decode_utf8(body));
}

/// A text that is delivered as UTF-8, in chunks cut anywhere, gives the
/// items of its lines: one for each line that carries an item, in the order
/// of the lines, up to the first line that marks the end.
pub proof fn lemma_run_decodes_text<T>(
    text: Seq<char>,
    chunks: Seq<Seq<u8>>,
    decode: spec_fn(Seq<char>) -> Decoded<T>,
)
    requires
        concat(chunks) == encode_utf8(text),
    ensures
        run(AssemblerView::initial(), chunks, decode) == items_of(records_of_text(text), decode),
{
    lemma_run_decodes_whole_body(chunks, decode);
    lemma_records_of_encoded_text(text);
}

/// A body that is valid UTF-8 as a whole, in chunks cut anywhere, gives the
/// items of the lines of its text.
pub proof fn lemma_run_decodes_valid_body<T>(
    chunks: Seq<Seq<u8>>,
    decode: spec_fn(Seq<char>) -> Decoded<T>,
)
    requires
        valid_utf8(concat(chunks)),
    ensures
        run(AssemblerView::initial(), chunks, decode) == items_of(
            records_of_text(decode_utf8(concat(chunks))),
            decode,
        ),
{
    lemma_run_decodes_whole_body(chunks, decode);
    lemma_records_of_valid_body(concat(chunks));
}

/// Records are decoded independently of each other: the items of a body
/// that begins with a complete line are what that line gives, followed by
/// the items of the rest, unless the line marks the end of the stream. A line
/// that fails to decode is thus one item and no more.
pub proof fn lemma_records_are_independent<T>(
    line: Seq<u8>,
    rest: Seq<u8>,
    decode: spec_fn(Seq<char>) -> Decoded<T>,
)
    requires
        forall|j: int| 0 <= j < line.len() ==> line[j] != LINE_FEED,
    ensures
        items_of_body(line + seq![LINE_FEED] + rest, decode) == match decode(
            trimmed(decoded_text(line)),
        ) {
            Decoded::Item(x) => seq![x] + items_of_body(rest, decode),
            Decoded::Skip => items_of_body(rest, decode),
            Decoded::Done => Seq::<T>::empty(),
        },
{
    let a = line + seq![LINE_FEED];
    assert(a[line.len() as int] == LINE_FEED);
    assert forall|j: int| 0 <= j < line.len() implies a[j] != LINE_FEED by {
        assert(a[j] == line[j]);
    }
    lemma_line_feed_index_is(a, line.len() as int);
    lemma_records_of_line(a, rest);
    assert(a.take(line.len() as int) =~= line);
    assert(a.skip(line.len() as int + 1) + rest =~= rest);
    let all = records_of(a + rest);
    assert(all[0] == trimmed(decoded_text(line)));
    assert(all.drop_first() =~= records_of(rest));
}

/// The end of the stream flushes what is left: a body that holds no line
/// feed is one record, its text decoded as it stands.
pub proof fn lemma_final_record_is_decoded<T>(
    body: Seq<u8>,
    decode: spec_fn(Seq<char>) -> Decoded<T>,
)
    requires
        body.len() > 0,
        forall|j: int| 0 <= j < body.len() ==> body[j] != LINE_FEED,
    ensures
        items_of_body(body, decode) == match decode(decoded_text(body)) {
            Decoded::Item(x) => seq![x],
            _ => Seq::<T>::empty(),
        },
        run(AssemblerView::initial(), seq![body], decode) == items_of_body(body, decode),
{
    lemma_line_feed_index_is(body, body.len() as int);
    let all = records_of(body);
    assert(all == seq![decoded_text(body)]);
    assert(all[0] == decoded_text(body));
    assert(all.drop_first() =~= Seq::<Seq<char>>::empty());
    assert(items_of(all.drop_first(), decode) =~= Seq::<T>::empty());
    match decode(decoded_text(body)) {
        Decoded::Item(x) => {
            assert(seq![x] + Seq::<T>::empty() =~= seq![x]);
        },
        _ => {},
    }
    lemma_run_decodes_whole_body(seq![body], decode);
    assert(concat(seq![body].drop_first()) =~= Seq::<u8>::empty());
    assert(concat(seq![body]) =~= body);
}

/// The steps of a run are polls: when the caller asks again, reports a
/// chunk or reports the end of the body, the poll is the extraction up to
/// the next item from the state that has taken the report in.
pub proof fn lemma_poll_steps<T>(
    s: AssemblerView,
    chunk: Seq<u8>,
    decode: spec_fn(Seq<char>) -> Decoded<T>,
    failure: spec_fn(reqwest::Error) -> T,
)
    ensures
        poll(s, SourceEventView::Resumed, decode, failure) == next_item(s, decode),
        poll(s, SourceEventView::Chunk(chunk), decode, failure) == next_item(s.fed(chunk), decode),
        poll(s, SourceEventView::Finished, decode, failure) == next_item(s.finished(), decode),
{
}

/// A transport failure ends a live stream: the failure is the item of the
/// poll, nothing is left in the stream, and the next poll gives the end.
pub proof fn lemma_transport_failure_is_final<T>(
    s: AssemblerView,
    error: reqwest::Error,
    next: SourceEventView,
    decode: spec_fn(Seq<char>) -> Decoded<T>,
    failure: spec_fn(reqwest::Error) -> T,
)
    requires
        !s.exhausted,
    ensures
        poll(s, SourceEventView::Failed(error), decode, failure) == (
            s.aborted(),
            StreamPoll::Item(failure(error)),
        ),
        poll(s.aborted(), next, decode, failure) == (s.aborted(), StreamPoll::<T>::EndOfStream),
{
    lemma_ended_stream_stays_ended(s.aborted(), next, decode, failure);
}

/// A stream that has ended stays ended: whatever the source reports, a poll
/// gives the end of the stream and changes nothing.
pub proof fn lemma_ended_stream_stays_ended<T>(
    s: AssemblerView,
    event: SourceEventView,
    decode: spec_fn(Seq<char>) -> Decoded<T>,
    failure: spec_fn(reqwest::Error) -> T,
)
    requires
        s.ended(),
    ensures
        poll(s, event, decode, failure) == (s, StreamPoll::<T>::EndOfStream),
        !poll_completes(s, event, decode),
{
    lemma_pull_progress(s);
    assert(accept(s, event) == s);
}

} // verus!
