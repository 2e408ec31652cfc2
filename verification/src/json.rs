//! The JSON the client reads and writes, as `serde_json` understands it.
//!
//! Nothing in this file is proved. Each function hands one call on to
//! `serde_json`, and its contract gives the call's result a name, so that the
//! verified code can say exactly which calls it makes and on what.

use vstd::prelude::*;
use serde_json::Value;

verus! {

/// A parsed JSON document or a part of one. Opaque: its content is reached
/// through the functions of this file only.
#[verifier::external_type_specification]
#[verifier::external_body]
pub struct ExValue(serde_json::Value);

/// Why `serde_json` rejected a text.
#[verifier::external_type_specification]
#[verifier::external_body]
pub struct ExError(serde_json::Error);

/// The document that `serde_json::from_slice` reads from `text`; `None` where
/// it rejects the text.
pub uninterp spec fn json_document(text: Seq<u8>) -> Option<Value>;

/// The value that `Value::pointer` finds in `doc` under the JSON Pointer
/// `pointer`; `None` where the pointer leads nowhere.
pub uninterp spec fn json_member(doc: Value, pointer: Seq<char>) -> Option<Value>;

/// The text of `value` as `Value::as_str` gives it; `None` where the value is
/// not a JSON string.
pub uninterp spec fn json_text(value: Value) -> Option<Seq<char>>;

/// The number `value` as `Value::as_u64` gives it; `None` where the value is
/// not an integer from 0 to `u64::MAX`.
pub uninterp spec fn json_count(value: Value) -> Option<u64>;

/// The JSON string literal, quotes and escapes included, that
/// `serde_json::to_string` writes for `text`.
pub uninterp spec fn json_quoted(text: Seq<char>) -> Seq<char>;

/// `serde_json::from_slice` at type `Value`: parses `text`, which must be one
/// JSON value with nothing but whitespace around it. The result depends on
/// the bytes alone.
#[verifier::external_body]
pub(crate) fn parse_document(text: &[u8]) -> (parsed: Result<Value, serde_json::Error>)
    ensures
        match parsed {
            Ok(doc) => json_document(text@) == Some(doc),
            Err(_) => json_document(text@) is None,
        },
{
    serde_json::from_slice::<Value>(text)
}

/// `Value::pointer`: follows a JSON Pointer such as `/usage/total_tokens`
/// from `doc` through object members and array elements.
#[verifier::external_body]
pub(crate) fn member_at<'a>(doc: &'a Value, pointer: &str) -> (found: Option<&'a Value>)
    ensures
        match found {
            Some(value) => json_member(*doc, pointer@) == Some(*value),
            None => json_member(*doc, pointer@) is None,
        },
{
    doc.pointer(pointer)
}

/// `Value::as_str`: the text of a JSON string, and `None` for any other value.
#[verifier::external_body]
pub(crate) fn text_of<'a>(value: &'a Value) -> (text: Option<&'a str>)
    ensures
        match text {
            Some(s) => json_text(*value) == Some(s@),
            None => json_text(*value) is None,
        },
{
    value.as_str()
}

/// `Value::as_u64`: a JSON number that is an integer from 0 to `u64::MAX`,
/// and `None` for any other value.
#[verifier::external_body]
pub(crate) fn count_of(value: &Value) -> (count: Option<u64>)
    ensures
        count == json_count(*value),
{
    value.as_u64()
}

/// `serde_json::to_string` on a `str`: the text as a JSON string literal.
/// Writing a `str` into the string that is returned cannot fail, so the
/// result is always the literal.
#[verifier::external_body]
pub(crate) fn quote(text: &str) -> (literal: String)
    ensures
        literal@ == json_quoted(text@),
{
    serde_json::to_string(text).unwrap_or_default()
}

} // verus!
