//! Event decoding: what one frame of a streamed response says.

use vstd::prelude::*;
use vstd::slice::slice_subrange;
use crate::bytes::{bytes_equal, starts_with, trim, trimmed};
use crate::document::{read_text, text_at, text_view};
use crate::json::{json_document, parse_document};
use serde_json::Value;

verus! {

/// What one frame of a stream carries: a piece of the answer, nothing, or the
/// end of the stream.
#[derive(Debug)]
pub struct StreamFragment {
    /// The text that the frame adds to the answer, if it adds any.
    pub text: Option<String>,
    /// Whether the frame is the terminator of the stream.
    pub is_final: bool,
}

/// A fragment as a plain value.
pub struct FragmentView {
    pub text: Option<Seq<char>>,
    pub is_final: bool,
}

impl View for StreamFragment {
    type V = FragmentView;

    open spec fn view(&self) -> FragmentView {
        FragmentView {
            text: match self.text {
                Some(s) => Some(s@),
                None => None,
            },
            is_final: self.is_final,
        }
    }
}

/// The bytes `data: `, with which the data field of a frame begins.
pub open spec fn field_prefix() -> Seq<u8> {
    seq![100u8, 97u8, 116u8, 97u8, 58u8, 32u8]
}

/// The bytes `[DONE]`, the payload of the frame that ends a stream.
pub open spec fn terminator() -> Seq<u8> {
    seq![91u8, 68u8, 79u8, 78u8, 69u8, 93u8]
}

/// The fragment of a frame that carries nothing.
pub open spec fn no_op() -> FragmentView {
    FragmentView { text: None, is_final: false }
}

/// The payload of a data frame as far as the client reads it: one step of
/// the first choice.
#[derive(Debug)]
pub struct StreamEvent {
    /// The text that the step adds, at `choices[0].delta.content`. Absent in
    /// steps that only keep the stream alive.
    pub content: Option<String>,
    /// Why the answer ended, at `choices[0].finish_reason`. Absent while the
    /// answer goes on.
    pub finish_reason: Option<String>,
}

/// An event as a plain value.
pub struct EventView {
    pub content: Option<Seq<char>>,
    pub finish_reason: Option<Seq<char>>,
}

impl View for StreamEvent {
    type V = EventView;

    open spec fn view(&self) -> EventView {
        EventView {
            content: text_view(self.content),
            finish_reason: text_view(self.finish_reason),
        }
    }
}

/// The event that the JSON document `doc` holds. A member that is missing, or
/// is not a string, is absent from the event.
pub open spec fn event_in(doc: Value) -> EventView {
    EventView {
        content: text_at(doc, "/choices/0/delta/content"@),
        finish_reason: text_at(doc, "/choices/0/finish_reason"@),
    }
}

/// The event that `payload` holds; `None` where `payload` is no JSON document.
pub open spec fn event_of(payload: Seq<u8>) -> Option<EventView> {
    match json_document(payload) {
        Some(doc) => Some(event_in(doc)),
        None => None,
    }
}

/// The view of an event that may be missing.
pub open spec fn event_view(event: Option<StreamEvent>) -> Option<EventView> {
    match event {
        Some(e) => Some(e@),
        None => None,
    }
}

/// What the frame `frame` carries.
///
/// A frame that does not begin with the field prefix carries nothing. One
/// whose payload is the terminator, whitespace aside, ends the stream. Any
/// other payload is read as a JSON document: it carries the content of its
/// event, and nothing if it is no document.
pub open spec fn fragment_of(frame: Seq<u8>) -> FragmentView {
    if !field_prefix().is_prefix_of(frame) {
        no_op()
    } else {
        let payload = frame.subrange(field_prefix().len() as int, frame.len() as int);
        if trimmed(payload) == terminator() {
            FragmentView { text: None, is_final: true }
        } else {
            match event_of(payload) {
                Some(event) => FragmentView { text: event.content, is_final: false },
                None => no_op(),
            }
        }
    }
}

/// Reads the event that a JSON payload holds; `None` where the payload is no
/// JSON document.
pub fn parse_event(payload: &[u8]) -> (event: Option<StreamEvent>)
    ensures
        event_view(event) == event_of(payload@),
{
    match parse_document(payload) {
        Ok(doc) => Some(
            StreamEvent {
                content: read_text(&doc, "/choices/0/delta/content"),
                finish_reason: read_text(&doc, "/choices/0/finish_reason"),
            },
        ),
        Err(_) => None,
    }
}

/// Decodes one frame. Never fails: a frame that cannot be read carries
/// nothing.
pub fn decode_frame(frame: &[u8]) -> (fragment: StreamFragment)
    ensures
        fragment@ == fragment_of(frame@),
{
    let prefix: [u8; 6] = [100, 97, 116, 97, 58, 32];
    let done: [u8; 6] = [91, 68, 79, 78, 69, 93];
    if !starts_with(frame, prefix.as_slice()) {
        return StreamFragment { text: None, is_final: false };
    }
    let payload = slice_subrange(frame, prefix.len(), frame.len());
    if bytes_equal(trim(payload), done.as_slice()) {
        return StreamFragment { text: None, is_final: true };
    }
    match parse_event(payload) {
        Some(event) => StreamFragment { text: event.content, is_final: false },
        None => StreamFragment { text: None, is_final: false },
    }
}

} // verus!
