//! What is made of the bytes that a process wrote: the text of its standard
//! error, and the chunk events of its output.

use vstd::prelude::*;
use vstd::utf8::{decode_utf8, valid_utf8};

verus! {

/// `std::string::FromUtf8Error`, the error of `String::from_utf8`. Nothing is
/// read from it.
#[verifier::external_type_specification]
#[verifier::external_body]
pub struct ExFromUtf8Error(std::string::FromUtf8Error);

/// The text that `String::from_utf8_lossy` makes of `bytes`: what they
/// encode, with the replacement character in place of every sequence that is
/// not UTF-8.
pub uninterp spec fn lossy_text(bytes: Seq<u8>) -> Seq<char>;

/// Calls `String::from_utf8`, which gives the text that `bytes` encode, and
/// an error where they are not UTF-8.
#[verifier::external_body]
pub(crate) fn text_from_utf8(bytes: Vec<u8>) -> (r: Result<String, std::string::FromUtf8Error>)
    ensures
        match r {
            Ok(text) => valid_utf8(bytes@) && text@ == decode_utf8(bytes@),
            Err(_) => !valid_utf8(bytes@),
        },
{
    String::from_utf8(bytes)
}

/// Calls `String::from_utf8_lossy`, which gives the text that `bytes`
/// encode, with the replacement character in place of what is not UTF-8.
#[verifier::external_body]
pub(crate) fn text_from_utf8_lossy(bytes: &[u8]) -> (r: String)
    ensures
        r@ == lossy_text(bytes@),
        valid_utf8(bytes@) ==> r@ == decode_utf8(bytes@),
{
    String::from_utf8_lossy(bytes).into_owned()
}

/// One piece of the assistant's answer.
#[derive(Debug, PartialEq, Eq)]
pub struct StreamChunkPayload {
    pub round_id: u64,
    pub chunk: String,
}

/// The mathematical value of a [`StreamChunkPayload`].
pub ghost struct StreamChunkView {
    pub round_id: u64,
    pub chunk: Seq<char>,
}

impl View for StreamChunkPayload {
    type V = StreamChunkView;

    open spec fn view(&self) -> StreamChunkView {
        StreamChunkView { round_id: self.round_id, chunk: self.chunk@ }
    }
}

/// The view of an optional chunk event.
pub open spec fn opt_chunk_view(o: Option<StreamChunkPayload>) -> Option<StreamChunkView> {
    match o {
        Some(c) => Some(c@),
        None => None,
    }
}

/// The chunk event for `chunk` in the round `round_id`: none for an empty
/// chunk.
pub open spec fn chunk_event(round_id: u64, chunk: Seq<char>) -> Option<StreamChunkView> {
    if chunk.len() == 0 {
        None
    } else {
        Some(StreamChunkView { round_id, chunk })
    }
}

/// The text of what was captured from a stream: the bytes as text where
/// reading went through and they are UTF-8, and the empty text otherwise.
pub open spec fn captured_text(captured: Option<Seq<u8>>) -> Seq<char> {
    match captured {
        Some(bytes) => if valid_utf8(bytes) {
            decode_utf8(bytes)
        } else {
            Seq::empty()
        },
        None => Seq::empty(),
    }
}

/// The bytes that were captured, if reading went through.
pub open spec fn captured_view(captured: Option<Vec<u8>>) -> Option<Seq<u8>> {
    match captured {
        Some(bytes) => Some(bytes@),
        None => None,
    }
}

/// The text of a stream that was read to its end. `captured` holds its bytes,
/// or nothing where reading failed. A failed read and bytes that are not
/// UTF-8 both give the empty text.
pub fn read_stream_to_string(captured: Option<Vec<u8>>) -> (r: String)
    ensures
        r@ == captured_text(captured_view(captured)),
{
    match captured {
        Some(bytes) => match text_from_utf8(bytes) {
            Ok(text) => text,
            Err(_) => String::new(),
        },
        None => String::new(),
    }
}

/// The event to deliver for `chunk`: none where the chunk is empty.
pub fn emit_stream_chunk(round_id: u64, chunk: String) -> (r: Option<StreamChunkPayload>)
    ensures
        opt_chunk_view(r) == chunk_event(round_id, chunk@),
{
    if chunk.as_str().is_empty() {
        return None;
    }
    Some(StreamChunkPayload { round_id, chunk })
}

} // verus!
