//! The stream that decodes the responses of a streamed generate-content
//! call: a JSON array that arrives piece by piece, an element to a line.

use crate::assembler::AssemblerView;
use crate::event_stream::{decoder_of, EventStream, RecordDecoder};
use crate::json::{json_document, json_failure, parse_json, JsonValue};
use crate::providers::google::error::{GoogleError, GoogleErrorView};
use crate::providers::google::types::{decode_response, response_of, GenerateContentResponse};
use crate::stream::{
    concat, items_of, lemma_records_of_text_line, lemma_run_decodes_text, records_of_text, run,
    Decoded,
};
use crate::text::{lemma_trimmed_range, text_eq, trim, trimmed};
use vstd::prelude::*;
use vstd::string::StrSliceExecFns;
use vstd::utf8::encode_utf8;

verus! {

/// One item of the stream: a response, or the failure that took its place.
pub type StreamItem = Result<GenerateContentResponse, GoogleError>;

/// The value of a [`StreamItem`].
pub type StreamItemView = Result<Seq<(Seq<char>, JsonValue)>, GoogleErrorView>;

/// The value of an item.
pub open spec fn item_view(item: StreamItem) -> StreamItemView {
    match item {
        Ok(response) => Ok(response@),
        Err(error) => Err(error@),
    }
}

/// What a payload decodes to: the response that its JSON document stands
/// for, and a decode failure where it is no document or no object. The
/// failure carries the error of the parser in the first case and the error
/// of the schema in the second.
pub open spec fn decoded_payload(payload: Seq<char>) -> StreamItemView {
    match json_document(payload) {
        Some(doc) => match response_of(doc) {
            Ok(response) => Ok(response),
            Err(e) => Err(GoogleErrorView::SerdeJson(e)),
        },
        None => Err(GoogleErrorView::SerdeJson(json_failure(payload))),
    }
}

/// `s` without the comma that may end it. One comma is taken, no more.
pub open spec fn without_trailing_comma(s: Seq<char>) -> Seq<char> {
    if s.len() > 0 && s.last() == ',' {
        s.drop_last()
    } else {
        s
    }
}

/// Whether a record is framing: once trimmed it is empty, or a bracket of
/// the array that surrounds the responses.
pub open spec fn is_framing(chunk: Seq<char>) -> bool {
    trimmed(chunk).len() == 0 || trimmed(chunk) == "["@ || trimmed(chunk) == "]"@
}

/// What a record decodes to. Framing carries nothing. Any other record is
/// an element of the array: it is trimmed, the comma that separates it from
/// the next element is taken off, and the rest is the payload.
pub open spec fn decoded_chunk(chunk: Seq<char>) -> Option<StreamItemView> {
    if is_framing(chunk) {
        None
    } else {
        Some(decoded_payload(without_trailing_comma(trimmed(chunk))))
    }
}

/// Takes off the comma that may end `s`.
pub fn strip_trailing_comma(s: &str) -> (out: &str)
    ensures
        out@ == without_trailing_comma(s@),
{
    let n = s.unicode_len();
    if n > 0 && s.get_char(n - 1) == ',' {
        proof {
            assert(s@.subrange(0, n - 1) =~= s@.drop_last());
        }
        s.substring_char(0, n - 1)
    } else {
        s
    }
}

/// Decodes the payload of an element of the array.
pub fn decode_payload(payload: &str) -> (out: StreamItem)
    ensures
        item_view(out) == decoded_payload(payload@),
{
    match parse_json(payload) {
        Ok(doc) => match decode_response(doc) {
            Ok(response) => Ok(response),
            Err(e) => Err(GoogleError::SerdeJson(e)),
        },
        Err(e) => Err(GoogleError::SerdeJson(e)),
    }
}

/// Decodes one record.
pub fn decode_chunk(chunk: &str) -> (out: Option<StreamItem>)
    ensures
        match out {
            Some(item) => decoded_chunk(chunk@) == Some(item_view(item)),
            None => decoded_chunk(chunk@) is None,
        },
{
    let body = trim(chunk);
    if body.is_empty() || text_eq(body, "[") || text_eq(body, "]") {
        return None;
    }
    Some(decode_payload(strip_trailing_comma(body)))
}

/// The decoder of this provider's records: the elements of a JSON array,
/// one to a line, between the brackets of the array. No record ends the
/// stream.
pub struct GoogleDecoder;

impl RecordDecoder for GoogleDecoder {
    type Item = StreamItem;

    type ItemView = StreamItemView;

    open spec fn item_view(item: StreamItem) -> StreamItemView {
        item_view(item)
    }

    open spec fn decoded(record: Seq<char>) -> Decoded<StreamItemView> {
        match decoded_chunk(record) {
            Some(item) => Decoded::Item(item),
            None => Decoded::Skip,
        }
    }

    open spec fn transport_failure(error: reqwest::Error) -> StreamItemView {
        Err(GoogleErrorView::Reqwest(error))
    }

    fn decode(record: &str) -> (out: Decoded<StreamItem>) {
        match decode_chunk(record) {
            Some(item) => Decoded::Item(item),
            None => Decoded::Skip,
        }
    }

    fn failed(error: reqwest::Error) -> (out: StreamItem) {
        Err(GoogleError::Reqwest(error))
    }
}

/// Whether a text can stand as an element of the array on a line of its
/// own: it begins and ends with the braces of a JSON object and holds no
/// line feed.
pub open spec fn is_element(element: Seq<char>) -> bool {
    &&& element.len() >= 2
    &&& element[0] == '{'
    &&& element.last() == '}'
    &&& forall|j: int| 0 <= j < element.len() ==> element[j] != '\n'
}

/// The lines of the elements of an array: each element on a line of its
/// own, followed by a comma where `commas` says so.
pub open spec fn element_lines(elements: Seq<Seq<char>>, commas: Seq<bool>) -> Seq<char>
    decreases elements.len(),
{
    if elements.len() == 0 || commas.len() == 0 {
        Seq::empty()
    } else {
        elements[0] + (if commas[0] {
            seq![',']
        } else {
            Seq::empty()
        }) + seq!['\n'] + element_lines(elements.drop_first(), commas.drop_first())
    }
}

/// The text of an array that is streamed line by line: the opening bracket,
/// the elements, the closing bracket, each on a line of its own.
pub open spec fn array_text(elements: Seq<Seq<char>>, commas: Seq<bool>) -> Seq<char> {
    seq!['[', '\n'] + element_lines(elements, commas) + seq![']', '\n']
}

/// The items of the elements of an array: each element decoded as a
/// payload.
pub open spec fn element_items(elements: Seq<Seq<char>>) -> Seq<StreamItemView> {
    Seq::new(elements.len(), |i: int| decoded_payload(elements[i]))
}

/// An element on a line of its own, with or without the comma that
/// separates it from the next, decodes to the item of its payload.
pub proof fn lemma_element_line_decodes(element: Seq<char>, comma: bool)
    requires
        is_element(element),
    ensures
        ({
            let line = element + (if comma {
                seq![',']
            } else {
                Seq::empty()
            });
            &&& forall|j: int| 0 <= j < line.len() ==> line[j] != '\n'
            &&& decoded_chunk(trimmed(line)) == Some(decoded_payload(element))
        }),
{
    reveal_strlit("[");
    reveal_strlit("]");
    let line = element + (if comma {
        seq![',']
    } else {
        Seq::empty()
    });
    assert(line[0] == element[0]);
    assert(line.last() == if comma {
        ','
    } else {
        '}'
    });
    assert forall|j: int| 0 <= j < line.len() implies line[j] != '\n' by {
        if j < element.len() {
            assert(line[j] == element[j]);
        }
    }
    lemma_trimmed_range(line, 0, line.len() as int);
    assert(line.subrange(0, line.len() as int) =~= line);
    lemma_trimmed_range(trimmed(line), 0, line.len() as int);
    assert(without_trailing_comma(line) =~= element);
}

/// The lines of the elements of an array give one item for each element, in
/// the order of the array, and then whatever the text after them gives.
pub proof fn lemma_element_lines_decode(
    elements: Seq<Seq<char>>,
    commas: Seq<bool>,
    tail: Seq<char>,
)
    requires
        commas.len() == elements.len(),
        forall|i: int| 0 <= i < elements.len() ==> is_element(#[trigger] elements[i]),
    ensures
        items_of(
            records_of_text(element_lines(elements, commas) + tail),
            decoder_of::<GoogleDecoder>(),
        ) == element_items(elements) + items_of(
            records_of_text(tail),
            decoder_of::<GoogleDecoder>(),
        ),
    decreases elements.len(),
{
    let decode = decoder_of::<GoogleDecoder>();
    if elements.len() == 0 {
        assert(element_lines(elements, commas) + tail =~= tail);
        assert(element_items(elements) + items_of(records_of_text(tail), decode) =~= items_of(
            records_of_text(tail),
            decode,
        ));
    } else {
        let line = elements[0] + (if commas[0] {
            seq![',']
        } else {
            Seq::empty()
        });
        let rest = element_lines(elements.drop_first(), commas.drop_first()) + tail;
        lemma_element_line_decodes(elements[0], commas[0]);
        assert(element_lines(elements, commas) + tail =~= line + seq!['\n'] + rest);
        lemma_records_of_text_line(line, rest);
        let all = records_of_text(line + seq!['\n'] + rest);
        assert(all[0] == trimmed(line));
        assert(all.drop_first() =~= records_of_text(rest));
        assert forall|i: int| 0 <= i < elements.drop_first().len() implies is_element(
            #[trigger] elements.drop_first()[i],
        ) by {
            assert(elements.drop_first()[i] == elements[i + 1]);
        }
        lemma_element_lines_decode(elements.drop_first(), commas.drop_first(), tail);
        assert(element_items(elements) =~= seq![decoded_payload(elements[0])] + element_items(
            elements.drop_first(),
        )) by {
            assert forall|i: int| 0 < i < elements.len() implies element_items(elements)[i]
                == element_items(elements.drop_first())[i - 1] by {
                assert(elements.drop_first()[i - 1] == elements[i]);
            }
        }
        assert(seq![decoded_payload(elements[0])] + (element_items(elements.drop_first())
            + items_of(records_of_text(tail), decode)) =~= element_items(elements) + items_of(
            records_of_text(tail),
            decode,
        ));
    }
}

/// An array that is streamed line by line gives exactly one item for each
/// of its elements, in the order of the array: the decoding of the element
/// without the comma that follows it. The lines of the brackets give no
/// item. This holds however the bytes of the array are cut into chunks.
pub proof fn lemma_array_decodes_element_by_element(
    elements: Seq<Seq<char>>,
    commas: Seq<bool>,
    chunks: Seq<Seq<u8>>,
)
    requires
        commas.len() == elements.len(),
        forall|i: int| 0 <= i < elements.len() ==> is_element(#[trigger] elements[i]),
        concat(chunks) == encode_utf8(array_text(elements, commas)),
    ensures
        run(AssemblerView::initial(), chunks, decoder_of::<GoogleDecoder>()) == element_items(
            elements,
        ),
{
    reveal_strlit("[");
    reveal_strlit("]");
    let decode = decoder_of::<GoogleDecoder>();
    let text = array_text(elements, commas);
    lemma_run_decodes_text(text, chunks, decode);
    let open = seq!['['];
    let close = seq![']'];
    let last = close + seq!['\n'] + Seq::<char>::empty();
    let inner = element_lines(elements, commas) + last;
    assert(text =~= open + seq!['\n'] + inner);
    lemma_records_of_text_line(open, inner);
    lemma_trimmed_range(open, 0, 1);
    assert(open.subrange(0, 1) =~= open);
    assert(open =~= "["@);
    let all = records_of_text(text);
    assert(all[0] == trimmed(open));
    assert(all.drop_first() =~= records_of_text(inner));
    lemma_element_lines_decode(elements, commas, last);
    lemma_records_of_text_line(close, Seq::<char>::empty());
    lemma_trimmed_range(close, 0, 1);
    assert(close.subrange(0, 1) =~= close);
    assert(close =~= "]"@);
    let tail_records = records_of_text(last);
    assert(records_of_text(Seq::<char>::empty()) =~= Seq::<Seq<char>>::empty());
    assert(tail_records[0] == trimmed(close));
    assert(tail_records.drop_first() =~= Seq::<Seq<char>>::empty());
    assert(items_of(tail_records.drop_first(), decode) =~= Seq::<StreamItemView>::empty());
    assert(items_of(tail_records, decode) =~= Seq::<StreamItemView>::empty());
    assert(element_items(elements) + Seq::<StreamItemView>::empty() =~= element_items(elements));
}

/// The stream of the responses of a streamed generate-content call.
pub type GoogleStream = EventStream<GoogleDecoder>;

impl EventStream<GoogleDecoder> {
    /// Decodes one record. The stream itself is left as it was: what a record
    /// decodes to has no bearing on the records that follow.
    pub fn parse_chunk(&mut self, chunk: &str) -> (out: Option<StreamItem>)
        ensures
            *final(self) == *old(self),
            match out {
                Some(item) => decoded_chunk(chunk@) == Some(item_view(item)),
                None => decoded_chunk(chunk@) is None,
            },
    {
        decode_chunk(chunk)
    }
}

} // verus!
