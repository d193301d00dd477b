//! The calls into `serde_json` and the one into `std::str` that the wire
//! codec rests on. Nothing in this file is proved: each contract restates
//! what the called function does.

use vstd::prelude::*;
use vstd::utf8::{decode_utf8, valid_utf8};
use std::collections::BTreeMap;
use crate::text::newline_free;

verus! {

/// `serde_json::Error`: handed on as it comes, never looked into.
#[verifier::external_type_specification]
#[verifier::external_body]
pub struct ExJsonError(serde_json::Error);

/// The JSON string literal that `serde_json::to_string` writes for a text:
/// the text between double quotes, with quotes, backslashes and control
/// characters escaped. `None` stands for a text that it fails on.
pub uninterp spec fn json_string_text(s: Seq<char>) -> Option<Seq<char>>;

/// The members of the JSON object that a text holds, as
/// `serde_json::from_str` reads them into a map ordered by key: each key
/// with the text of its value where that value is a JSON string, and with
/// `None` where it is anything else. `None` stands for a text that is not
/// one JSON object.
pub uninterp spec fn json_object_members(text: Seq<char>) -> Option<
    Seq<(Seq<char>, Option<Seq<char>>)>,
>;

/// Calls `serde_json::to_string` on a text. The result is the JSON string
/// literal of that text, a function of the text alone. The literal holds no
/// line feed: the serializer writes every character below U+0020 as an
/// escape sequence.
#[verifier::external_body]
pub(crate) fn json_string(s: &str) -> (r: Result<String, serde_json::Error>)
    ensures
        match r {
            Ok(literal) => json_string_text(s@) == Some(literal@) && newline_free(literal@),
            Err(_) => json_string_text(s@) is None,
        },
{
    serde_json::to_string(s)
}

/// Calls `serde_json::from_str` to read a text as one JSON object, and
/// hands out its members in key order, each with its text where the value
/// is a JSON string (`serde_json::Value::as_str`). The result is a function
/// of the text alone.
#[verifier::external_body]
pub(crate) fn json_members(text: &str) -> (r: Result<
    Vec<(String, Option<String>)>,
    serde_json::Error,
>)
    ensures
        match r {
            Ok(members) => json_object_members(text@) == Some(members.deep_view()),
            Err(_) => json_object_members(text@) is None,
        },
{
    let object = serde_json::from_str::<BTreeMap<String, serde_json::Value>>(text)?;
    Ok(object.into_iter().map(|(key, value)| (key, value.as_str().map(str::to_owned))).collect())
}

/// Calls `std::str::from_utf8`: the text that a byte string encodes, or
/// `None` where the bytes are not valid UTF-8.
#[verifier::external_body]
pub(crate) fn utf8_text(bytes: &[u8]) -> (r: Option<&str>)
    ensures
        r is Some <==> valid_utf8(bytes@),
        r matches Some(text) ==> text@ == decode_utf8(bytes@),
{
    match std::str::from_utf8(bytes) {
        Ok(text) => Some(text),
        Err(_) => None,
    }
}

} // verus!
