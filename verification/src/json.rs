//! Trusted boundary to `serde_json`, used only to read the one field the
//! library ever inspects in a response payload.

use vstd::prelude::*;

verus! {

/// The `key` member of the JSON document `body`, serialized; `None` when
/// `body` is not valid JSON or the document has no such member. A function
/// of the document text alone.
pub uninterp spec fn json_member(body: Seq<char>, key: Seq<char>) -> Option<Seq<char>>;

/// Relies on `serde_json::from_str` and `serde_json::Value::get`: parsing is
/// deterministic, and `get` returns the member under `key` if and only if
/// the document is an object that has one. The member is rendered with
/// serde_json's compact serialization, so a numeric member comes back as its
/// digits and a string member keeps its quotes.
#[verifier::external_body]
pub(crate) fn json_member_text(body: &str, key: &str) -> (r: Option<String>)
    ensures
        r is Some <==> json_member(body@, key@) is Some,
        r matches Some(t) ==> json_member(body@, key@) == Some(t@),
{
    match serde_json::from_str::<serde_json::Value>(body) {
        Ok(v) => v.get(key).map(|m| m.to_string()),
        Err(_) => None,
    }
}

} // verus!
