//! Decoding the provider's response envelope. Only
//! `choices[0].message.content` is ever read from it; a body that is not
//! valid JSON is a decode failure, while a valid body without that path
//! degrades to an empty assistant reply (the broker's documented policy,
//! applied in verified code in [`crate::broker`]).
use vstd::prelude::*;

verus! {

/// What a response body means, as a function of the body text alone:
/// nothing when the body is not valid JSON; otherwise the string at
/// `choices[0].message.content`, if that path holds a string.
pub uninterp spec fn decoded_reply(s: Seq<char>) -> Option<Option<Seq<char>>>;

/// The assistant text a successfully decoded body yields: the content at
/// the expected path, or the empty string when the path is absent or not a
/// string.
pub open spec fn reply_text(s: Seq<char>) -> Seq<char> {
    match decoded_reply(s) {
        Some(Some(t)) => t,
        Some(None) => Seq::empty(),
        None => Seq::empty(),
    }
}

/// Relies on `serde_json::from_str::<serde_json::Value>`, `Value`'s path
/// indexing and `Value::as_str`: whether a body parses as JSON and what
/// stands at `choices[0].message.content` are functions of the body text
/// alone; indexing a missing path yields JSON null, on which `as_str` is
/// `None`.
#[verifier::external_body]
pub(crate) fn decode_reply(body: &str) -> (r: Result<Option<String>, ()>)
    ensures
        r matches Ok(c) ==> decoded_reply(body@) == Some(c.deep_view()),
        r is Err ==> decoded_reply(body@) is None,
{
    match serde_json::from_str::<serde_json::Value>(body) {
        Ok(v) => match v["choices"][0]["message"]["content"].as_str() {
            Some(t) => Ok(Some(t.to_string())),
            None => Ok(None),
        },
        Err(_) => Err(()),
    }
}

} // verus!
