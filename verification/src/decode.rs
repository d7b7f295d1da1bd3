//! Decoding of the assistant's output, one line at a time, into text chunks.
//!
//! A line that is a JSON record is searched for text in a fixed order: first
//! the shapes of a streamed delta, then a full assistant message, then a final
//! result. Once a delta has been seen in a round, only deltas are read for the
//! rest of it. A line that is no JSON is passed on as it is.

use vstd::prelude::*;
use vstd::string::StringExecFns;
use crate::json::{
    lemma_array_model, member_of, opt_str_view, parse_json, parsed_document, text_at, text_at2,
    text_of, Json, JsonModel,
};
use crate::text::{opt_view, push_text, texts_of, trim_line_end, without_line_end};

verus! {

/// What a round has produced so far.
#[derive(Clone, Copy, Debug, PartialEq, Eq)]
pub struct StreamSummary {
    /// Some chunk was produced.
    pub emitted_any_chunk: bool,
    /// Some chunk came from a streamed delta.
    pub emitted_partial_chunk: bool,
    /// Some chunk came from a full message or a final result.
    pub emitted_full_message: bool,
}

impl StreamSummary {
    /// The summary of a round that has produced nothing.
    pub open spec fn blank() -> StreamSummary {
        StreamSummary {
            emitted_any_chunk: false,
            emitted_partial_chunk: false,
            emitted_full_message: false,
        }
    }

    /// The summary at the start of a round.
    pub fn new() -> (r: StreamSummary)
        ensures
            r == StreamSummary::blank(),
    {
        StreamSummary {
            emitted_any_chunk: false,
            emitted_partial_chunk: false,
            emitted_full_message: false,
        }
    }
}

impl Default for StreamSummary {
    fn default() -> (r: StreamSummary)
        ensures
            r == StreamSummary::blank(),
    {
        StreamSummary::new()
    }
}

/// A text as a chunk: absent where the text is empty.
pub open spec fn normalized_chunk(text: Seq<char>) -> Option<Seq<char>> {
    if text.len() == 0 {
        None
    } else {
        Some(text)
    }
}

/// An optional text as a chunk: absent where there is no text or it is empty.
pub open spec fn normalized_opt(text: Option<Seq<char>>) -> Option<Seq<char>> {
    match text {
        Some(t) => normalized_chunk(t),
        None => None,
    }
}

/// `first` where it is present, else `second`.
pub open spec fn first_of(first: Option<Seq<char>>, second: Option<Seq<char>>) -> Option<
    Seq<char>,
> {
    if first is Some {
        first
    } else {
        second
    }
}

/// The text of a streamed delta in `event`: the first non-empty string among
/// `delta.text`, `content_block.text`, `message.text`, `text` and `delta`.
pub open spec fn partial_text(event: JsonModel) -> Option<Seq<char>> {
    first_of(
        normalized_opt(text_at2(event, "delta"@, "text"@)),
        first_of(
            normalized_opt(text_at2(event, "content_block"@, "text"@)),
            first_of(
                normalized_opt(text_at2(event, "message"@, "text"@)),
                first_of(
                    normalized_opt(text_at(event, "text"@)),
                    normalized_opt(text_at(event, "delta"@)),
                ),
            ),
        ),
    )
}

/// What one item of a message's content adds to the text: its string member
/// `text`, else the item itself where it is a string, else nothing.
pub open spec fn fragment_text(item: JsonModel) -> Seq<char> {
    match text_at(item, "text"@) {
        Some(t) => t,
        None => match text_of(item) {
            Some(t) => t,
            None => Seq::empty(),
        },
    }
}

/// The fragments of `items`, joined in order.
pub open spec fn merged_text(items: Seq<JsonModel>) -> Seq<char>
    decreases items.len(),
{
    if items.len() == 0 {
        Seq::empty()
    } else {
        merged_text(items.drop_last()) + fragment_text(items.last())
    }
}

/// The text of a message's content: a string as it is, a list by its
/// fragments; absent where this is empty or the content is of another kind.
pub open spec fn message_text(content: JsonModel) -> Option<Seq<char>> {
    match content {
        JsonModel::Text(s) => normalized_chunk(s),
        JsonModel::Array(items) => normalized_chunk(merged_text(items)),
        _ => None,
    }
}

/// The text of a full assistant message in `value`: that of
/// `message.content`, else the string `message.text`.
pub open spec fn assistant_text(value: JsonModel) -> Option<Seq<char>> {
    let from_content = match member_of(value, "message"@) {
        Some(message) => match member_of(message, "content"@) {
            Some(content) => message_text(content),
            None => None,
        },
        None => None,
    };
    first_of(from_content, normalized_opt(text_at2(value, "message"@, "text"@)))
}

/// The text of a streamed delta in the member `event` of `value`.
pub open spec fn event_text(value: JsonModel) -> Option<Seq<char>> {
    match member_of(value, "event"@) {
        Some(event) => partial_text(event),
        None => None,
    }
}

/// The chunk that the record `value` gives in a round whose summary is
/// `summary`, and the summary after it.
pub open spec fn record_chunk(value: JsonModel, summary: StreamSummary) -> (
    Option<Seq<char>>,
    StreamSummary,
) {
    let partial = event_text(value);
    let kind = text_at(value, "type"@);
    let full = if kind == Some("assistant"@) {
        assistant_text(value)
    } else {
        None
    };
    let result = if kind == Some("result"@) {
        normalized_opt(text_at(value, "result"@))
    } else {
        None
    };
    if partial is Some {
        (partial, StreamSummary { emitted_partial_chunk: true, ..summary })
    } else if summary.emitted_partial_chunk {
        (None, summary)
    } else if full is Some {
        (full, StreamSummary { emitted_full_message: true, ..summary })
    } else if !summary.emitted_full_message && result is Some {
        (result, StreamSummary { emitted_full_message: true, ..summary })
    } else {
        (None, summary)
    }
}

/// The chunk that a line with the content `content` (its line end removed)
/// gives, where `parsed` is the content as a JSON document, if it is one.
pub open spec fn content_step(
    content: Seq<char>,
    parsed: Option<JsonModel>,
    summary: StreamSummary,
) -> (Option<Seq<char>>, StreamSummary) {
    if content.len() == 0 {
        (None, summary)
    } else {
        match parsed {
            Some(value) => {
                let (chunk, next) = record_chunk(value, summary);
                if chunk is Some {
                    (chunk, StreamSummary { emitted_any_chunk: true, ..next })
                } else {
                    (None, next)
                }
            },
            None => (
                Some(content + "\n"@),
                StreamSummary { emitted_any_chunk: true, ..summary },
            ),
        }
    }
}

/// The chunk that `line` gives, and the summary after it.
pub open spec fn line_step(line: Seq<char>, summary: StreamSummary) -> (
    Option<Seq<char>>,
    StreamSummary,
) {
    content_step(without_line_end(line), parsed_document(without_line_end(line)), summary)
}

/// The summary of a round after `lines`.
pub open spec fn stream_summary(lines: Seq<Seq<char>>) -> StreamSummary
    decreases lines.len(),
{
    if lines.len() == 0 {
        StreamSummary::blank()
    } else {
        line_step(lines.last(), stream_summary(lines.drop_last())).1
    }
}

/// The chunks of a round after `lines`, in order.
pub open spec fn stream_chunks(lines: Seq<Seq<char>>) -> Seq<Seq<char>>
    decreases lines.len(),
{
    if lines.len() == 0 {
        Seq::empty()
    } else {
        let before = stream_chunks(lines.drop_last());
        match line_step(lines.last(), stream_summary(lines.drop_last())).0 {
            Some(chunk) => before.push(chunk),
            None => before,
        }
    }
}

/// The model of an optional value.
pub open spec fn opt_json_model(o: Option<Json>) -> Option<JsonModel> {
    match o {
        Some(j) => Some(j@),
        None => None,
    }
}

/// No record gives an empty chunk.
pub proof fn lemma_record_chunk_is_not_empty(value: JsonModel, summary: StreamSummary)
    ensures
        record_chunk(value, summary).0 matches Some(chunk) ==> chunk.len() > 0,
{
}

/// No line gives an empty chunk.
pub proof fn lemma_line_chunk_is_not_empty(line: Seq<char>, summary: StreamSummary)
    ensures
        line_step(line, summary).0 matches Some(chunk) ==> chunk.len() > 0,
{
    lemma_record_chunk_is_not_empty(
        parsed_document(without_line_end(line)).unwrap(),
        summary,
    );
}

/// Once a streamed delta was seen in a round, a record gives its delta and
/// nothing else: full messages and final results are passed over, and the
/// summary stays as it is.
pub proof fn lemma_delta_seen_suppresses_full_messages(value: JsonModel, summary: StreamSummary)
    requires
        summary.emitted_partial_chunk,
    ensures
        record_chunk(value, summary).0 == event_text(value),
        record_chunk(value, summary).1 == summary,
{
}

/// A line that is not blank and is no JSON document is passed on as it is,
/// with one line feed in place of its line end.
pub proof fn lemma_unparsed_line_is_passed_on(line: Seq<char>, summary: StreamSummary)
    requires
        without_line_end(line).len() > 0,
        parsed_document(without_line_end(line)) is None,
    ensures
        line_step(line, summary).0 == Some(without_line_end(line) + "\n"@),
        line_step(line, summary).1 == (StreamSummary { emitted_any_chunk: true, ..summary }),
{
}

/// A line never clears what the summary has recorded, and records a chunk
/// whenever it gives one.
pub proof fn lemma_summary_only_grows(line: Seq<char>, summary: StreamSummary)
    ensures
        summary.emitted_any_chunk ==> line_step(line, summary).1.emitted_any_chunk,
        summary.emitted_partial_chunk ==> line_step(line, summary).1.emitted_partial_chunk,
        summary.emitted_full_message ==> line_step(line, summary).1.emitted_full_message,
        line_step(line, summary).0 is Some ==> line_step(line, summary).1.emitted_any_chunk,
        line_step(line, summary).0 is None ==> line_step(line, summary).1.emitted_any_chunk
            == summary.emitted_any_chunk,
{
}

/// The summary of a round says that a chunk was produced exactly if the round
/// has a chunk.
pub proof fn lemma_any_chunk_flag_counts_chunks(lines: Seq<Seq<char>>)
    ensures
        stream_summary(lines).emitted_any_chunk == (stream_chunks(lines).len() > 0),
    decreases lines.len(),
{
    if lines.len() > 0 {
        lemma_any_chunk_flag_counts_chunks(lines.drop_last());
        lemma_summary_only_grows(lines.last(), stream_summary(lines.drop_last()));
    }
}

/// Turns a text into a chunk: `None` for the empty text.
pub fn normalize_text_chunk(text: &str) -> (r: Option<String>)
    ensures
        opt_view(r) == normalized_chunk(text@),
{
    if text.is_empty() {
        return None;
    }
    Some(text.to_owned())
}

/// Turns an optional text into a chunk.
pub fn normalize_opt_text(text: Option<&str>) -> (r: Option<String>)
    ensures
        opt_view(r) == normalized_opt(opt_str_view(text)),
{
    match text {
        Some(t) => normalize_text_chunk(t),
        None => None,
    }
}

/// The text of a streamed delta in `event`, by the first shape that holds a
/// non-empty string.
pub fn extract_partial_text_from_event(event: &Json) -> (r: Option<String>)
    ensures
        opt_view(r) == partial_text(event@),
{
    let delta_text = normalize_opt_text(event.text_member2("delta", "text"));
    if delta_text.is_some() {
        return delta_text;
    }
    let block_text = normalize_opt_text(event.text_member2("content_block", "text"));
    if block_text.is_some() {
        return block_text;
    }
    let message_text = normalize_opt_text(event.text_member2("message", "text"));
    if message_text.is_some() {
        return message_text;
    }
    let bare_text = normalize_opt_text(event.text_member("text"));
    if bare_text.is_some() {
        return bare_text;
    }
    normalize_opt_text(event.text_member("delta"))
}

/// The text of a message's content: a string as it is, a list by joining the
/// text of its items.
pub fn extract_message_text(content: &Json) -> (r: Option<String>)
    ensures
        opt_view(r) == message_text(content@),
{
    match content {
        Json::Text(text) => normalize_text_chunk(text.as_str()),
        Json::Array(items) => {
            let ghost models = content@->Array_0;
            proof {
                lemma_array_model(*items);
                assert(models.subrange(0, 0) == Seq::<JsonModel>::empty());
            }
            let mut merged = String::new();
            let mut i: usize = 0;
            while i < items.len()
                invariant
                    i <= items.len(),
                    models.len() == items@.len(),
                    forall|k: int| 0 <= k < items@.len() ==> models[k] == (#[trigger] items@[k])@,
                    merged@ == merged_text(models.subrange(0, i as int)),
                decreases items.len() - i,
            {
                let ghost done = models.subrange(0, i as int + 1);
                proof {
                    assert(done.drop_last() == models.subrange(0, i as int));
                    assert(done.last() == items@[i as int]@);
                }
                let item = &items[i];
                match item.text_member("text") {
                    Some(text) => {
                        merged.append(text);
                    },
                    None => {
                        match item.text() {
                            Some(text) => {
                                merged.append(text);
                            },
                            None => {
                                assert(merged@ + Seq::<char>::empty() == merged@);
                            },
                        }
                    },
                }
                i += 1;
            }
            proof {
                assert(models.subrange(0, i as int) == models);
            }
            normalize_text_chunk(merged.as_str())
        },
        _ => None,
    }
}

/// The text of a full assistant message in `value`.
pub fn extract_assistant_text(value: &Json) -> (r: Option<String>)
    ensures
        opt_view(r) == assistant_text(value@),
{
    let from_content = match value.member("message") {
        Some(message) => match message.member("content") {
            Some(content) => extract_message_text(content),
            None => None,
        },
        None => None,
    };
    if from_content.is_some() {
        return from_content;
    }
    normalize_opt_text(value.text_member2("message", "text"))
}

/// The chunk that the record `value` gives. A streamed delta always gives
/// one and makes the round read deltas only; a full message gives one unless
/// a delta came before; a final result gives one unless a delta or a full
/// message came before.
pub fn extract_stream_chunk_from_json(value: &Json, summary: &mut StreamSummary) -> (r: Option<
    String,
>)
    ensures
        (opt_view(r), *final(summary)) == record_chunk(value@, *old(summary)),
{
    match value.member("event") {
        Some(event) => {
            let partial = extract_partial_text_from_event(event);
            if partial.is_some() {
                summary.emitted_partial_chunk = true;
                return partial;
            }
        },
        None => {},
    }
    if summary.emitted_partial_chunk {
        return None;
    }
    let kind = value.text_member("type");
    let is_assistant = match kind {
        Some(k) => crate::text::same_text(k, "assistant"),
        None => false,
    };
    if is_assistant {
        let full = extract_assistant_text(value);
        if full.is_some() {
            summary.emitted_full_message = true;
            return full;
        }
    }
    let is_result = match kind {
        Some(k) => crate::text::same_text(k, "result"),
        None => false,
    };
    if !summary.emitted_full_message && is_result {
        let result = normalize_opt_text(value.text_member("result"));
        if result.is_some() {
            summary.emitted_full_message = true;
            return result;
        }
    }
    None
}

/// The chunk for a line whose content, without its line end, is `content`,
/// given what the content is as a JSON document: nothing for a blank line, the
/// record's chunk for a document, and the content with a line feed behind it
/// for anything else.
pub fn decode_parsed(content: &str, parsed: &Option<Json>, summary: &mut StreamSummary) -> (r:
    Option<String>)
    ensures
        (opt_view(r), *final(summary)) == content_step(
            content@,
            opt_json_model(*parsed),
            *old(summary),
        ),
{
    if content.is_empty() {
        return None;
    }
    match parsed {
        Some(value) => {
            let chunk = extract_stream_chunk_from_json(value, summary);
            if chunk.is_some() {
                summary.emitted_any_chunk = true;
            }
            chunk
        },
        None => {
            summary.emitted_any_chunk = true;
            Some(content.to_owned().concat("\n"))
        },
    }
}

/// The chunk that one line of output gives, and the summary updated by it.
pub fn decode_line(line: &str, summary: &mut StreamSummary) -> (r: Option<String>)
    ensures
        (opt_view(r), *final(summary)) == line_step(line@, *old(summary)),
{
    let content = trim_line_end(line);
    if content.is_empty() {
        return None;
    }
    let parsed = parse_json(content);
    decode_parsed(content, &parsed, summary)
}

/// Decodes the lines of one round in order, and returns its chunks and its
/// summary.
pub fn stream_headless_stdout(lines: &Vec<String>) -> (r: (Vec<String>, StreamSummary))
    ensures
        texts_of(r.0@) == stream_chunks(texts_of(lines@)),
        r.1 == stream_summary(texts_of(lines@)),
{
    let ghost all = texts_of(lines@);
    let mut chunks: Vec<String> = Vec::new();
    let mut summary = StreamSummary::new();
    let mut i: usize = 0;
    proof {
        assert(all.subrange(0, 0) == Seq::<Seq<char>>::empty());
        assert(texts_of(chunks@) == Seq::<Seq<char>>::empty());
    }
    while i < lines.len()
        invariant
            i <= lines.len(),
            all == texts_of(lines@),
            texts_of(chunks@) == stream_chunks(all.subrange(0, i as int)),
            summary == stream_summary(all.subrange(0, i as int)),
        decreases lines.len() - i,
    {
        let ghost done = all.subrange(0, i as int + 1);
        proof {
            assert(done.drop_last() == all.subrange(0, i as int));
            assert(done.last() == lines@[i as int]@);
        }
        let chunk = decode_line(lines[i].as_str(), &mut summary);
        match chunk {
            Some(text) => {
                push_text(&mut chunks, text);
            },
            None => {},
        }
        i += 1;
    }
    proof {
        assert(all.subrange(0, i as int) == all);
    }
    (chunks, summary)
}

} // verus!
