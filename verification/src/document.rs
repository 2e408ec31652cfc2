//! Reading single fields out of a parsed JSON document.

use vstd::prelude::*;
use serde_json::Value;
use crate::json::{count_of, json_count, json_member, json_text, member_at, text_of};

verus! {

/// The string that `doc` holds under the JSON Pointer `pointer`; `None`
/// where it holds nothing there, or something that is not a string.
pub open spec fn text_at(doc: Value, pointer: Seq<char>) -> Option<Seq<char>> {
    match json_member(doc, pointer) {
        Some(value) => json_text(value),
        None => None,
    }
}

/// The number that `doc` holds under the JSON Pointer `pointer`; `None`
/// where it holds nothing there, or something that is not an integer from 0
/// to `u32::MAX`.
pub open spec fn count_at(doc: Value, pointer: Seq<char>) -> Option<u32> {
    match json_member(doc, pointer) {
        Some(value) => match json_count(value) {
            Some(n) => if n <= u32::MAX {
                Some(n as u32)
            } else {
                None
            },
            None => None,
        },
        None => None,
    }
}

/// The view of a string that may be missing.
pub open spec fn text_view(text: Option<String>) -> Option<Seq<char>> {
    match text {
        Some(s) => Some(s@),
        None => None,
    }
}

/// Reads the string that `doc` holds under `pointer`.
pub(crate) fn read_text(doc: &Value, pointer: &str) -> (text: Option<String>)
    ensures
        text_view(text) == text_at(*doc, pointer@),
{
    match member_at(doc, pointer) {
        Some(value) => match text_of(value) {
            Some(s) => Some(s.to_owned()),
            None => None,
        },
        None => None,
    }
}

/// Reads the number that `doc` holds under `pointer`.
pub(crate) fn read_count(doc: &Value, pointer: &str) -> (count: Option<u32>)
    ensures
        count == count_at(*doc, pointer@),
{
    match member_at(doc, pointer) {
        Some(value) => match count_of(value) {
            Some(n) => if n <= 0xffff_ffff {
                Some(n as u32)
            } else {
                None
            },
            None => None,
        },
        None => None,
    }
}

} // verus!
