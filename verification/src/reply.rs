//! Decoding of the service's reply: the optional `result.message_id` field of
//! a JSON body, defaulted to zero where the field is absent or mistyped.

use vstd::prelude::*;

verus! {

/// Whether a body is valid JSON, as `serde_json::from_str::<Value>` decides
/// it.
pub uninterp spec fn json_ok(s: Seq<char>) -> bool;

/// The raw `result.message_id` field, read as a signed 64-bit integer, of the
/// JSON value a body parses to; nothing where the path is absent or not such
/// an integer. Meaningful only where `json_ok` holds of the body.
pub uninterp spec fn json_message_id(s: Seq<char>) -> Option<i64>;

/// Relies on `serde_json::from_str::<Value>`, on `Value`'s `&str` indexing
/// (an absent key yields `Null`), and on `Value::as_i64`: whether a body
/// parses, and which identifier it then carries, are functions of its
/// characters alone.
#[verifier::external_body]
fn extract_raw_id(body: &str) -> (r: Option<Option<i64>>)
    ensures
        r is Some <==> json_ok(body@),
        r matches Some(raw) ==> raw == json_message_id(body@),
{
    match serde_json::from_str::<serde_json::Value>(body) {
        Ok(v) => Some(v["result"]["message_id"].as_i64()),
        Err(_) => None,
    }
}

/// The identifier reported for a parsed body: the raw field where present,
/// zero otherwise.
pub open spec fn spec_id_or_zero(raw: Option<i64>) -> i64 {
    match raw {
        Some(v) => v,
        None => 0,
    }
}

pub fn message_id_or_zero(raw: Option<i64>) -> (r: i64)
    ensures
        r == spec_id_or_zero(raw),
{
    match raw {
        Some(v) => v,
        None => 0,
    }
}

/// The reply a transport hands back, as a mathematical value: nothing where
/// the HTTP exchange failed, else the body text.
pub open spec fn spec_reply_view(reply: Option<&str>) -> Option<Seq<char>> {
    match reply {
        None => None,
        Some(s) => Some(s@),
    }
}

/// What decoding a reply yields: nothing without a body or for a body that is
/// not JSON; otherwise the message identifier, defaulted to zero.
pub open spec fn spec_decode(reply: Option<Seq<char>>) -> Option<i64> {
    match reply {
        None => None,
        Some(b) => if json_ok(b) {
            Some(spec_id_or_zero(json_message_id(b)))
        } else {
            None
        },
    }
}

/// Decodes the body a transport handed back, `None` standing for a failed
/// exchange.
pub fn decode_reply(reply: Option<&str>) -> (r: Option<i64>)
    ensures
        r == spec_decode(spec_reply_view(reply)),
{
    match reply {
        None => None,
        Some(body) => match extract_raw_id(body) {
            None => None,
            Some(raw) => Some(message_id_or_zero(raw)),
        },
    }
}

} // verus!
