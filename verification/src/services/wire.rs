//! What the protocols share on the wire: the parts of a request body that
//! both build alike, and the message for a status that neither names.

use crate::json::{child, child_of, json_document, parse_json, put_member, text_of, JsonModel};
use crate::text::{decimal, push_decimal};
use vstd::prelude::*;
use vstd::string::*;

verus! {

/// The text of the field `error.message` of an error body, where the body
/// is a JSON document that has it.
pub open spec fn reported_message(parsed: Result<JsonModel, Seq<char>>) -> Option<Seq<char>> {
    match parsed {
        Ok(doc) => text_of(child(child(Some(doc), "error"@), "message"@)),
        Err(_) => None,
    }
}

/// The message for a status that the table does not name: the field
/// `error.message` of the body where it has one, else the status and the
/// body as they came.
pub open spec fn fallback_message(status: u16, body: Seq<char>) -> Seq<char> {
    match reported_message(json_document(vstd::utf8::encode_utf8(body))) {
        Some(message) => message,
        None => "服务器错误 ("@ + decimal(status as nat) + "): "@ + body,
    }
}

/// The message for a status that the table of a protocol does not name.
pub fn fallback_error_message(status: u16, body: &str) -> (message: String)
    ensures
        message@ == fallback_message(status, body@),
{
    let parsed = parse_json(body.as_bytes());
    if let Ok(doc) = &parsed {
        let node = child_of(child_of(Some(doc), "error"), "message");
        if let Some(value) = node {
            if let Some(text) = value.as_text() {
                return String::from_str(text);
            }
        }
    }
    let mut message = String::from_str("服务器错误 (");
    push_decimal(&mut message, status as u64);
    message.append("): ");
    message.append(body);
    message
}

/// `entries` with the member `key` put where `value` is present.
pub open spec fn with_optional(
    entries: Seq<(Seq<char>, JsonModel)>,
    key: Seq<char>,
    value: Option<JsonModel>,
) -> Seq<(Seq<char>, JsonModel)> {
    match value {
        Some(v) => put_member(entries, key, v),
        None => entries,
    }
}

/// The number of output tokens that a request allows: the caller's where
/// the options name one, else the configuration's.
pub open spec fn token_limit(config_limit: i32, asked: Option<i32>) -> i32 {
    match asked {
        Some(n) => n,
        None => config_limit,
    }
}

/// The text of each name and value of `headers`.
pub open spec fn headers_model(headers: Seq<(String, String)>) -> Seq<(Seq<char>, Seq<char>)> {
    Seq::new(headers.len(), |i: int| (headers[i].0@, headers[i].1@))
}

} // verus!
