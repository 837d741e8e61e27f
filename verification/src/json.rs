//! Reading the integer `result` out of a dependency's JSON body.

use vstd::prelude::*;

verus! {

/// The integer member `key` of the JSON document in `body`, as `serde_json`
/// reads it (`from_slice`, then `Value::get` and `Value::as_i64`).
pub uninterp spec fn json_integer_member_of(body: Seq<u8>, key: Seq<char>) -> Option<i64>;

/// Parses `body` with `serde_json::from_slice` into a `serde_json::Value`, then
/// takes the member `key` with `Value::get` and reads it with `Value::as_i64`.
/// The contract claims only that the outcome is a function of `body` and `key`
/// (named `json_integer_member_of`); what JSON parsing accepts is not stated.
#[verifier::external_body]
fn json_integer_member(body: &[u8], key: &str) -> (value: Option<i64>)
    ensures
        value == json_integer_member_of(body@, key@),
{
    match serde_json::from_slice::<serde_json::Value>(body) {
        Ok(document) => document.get(key).and_then(serde_json::Value::as_i64),
        Err(_) => None,
    }
}

/// The integer `result` of a dependency's answer, where its body has one.
pub open spec fn spec_result_of(body: Seq<u8>) -> Option<i64> {
    json_integer_member_of(body, "result"@)
}

/// The integer `result` of a dependency's answer, where its body has one.
pub fn result_of(body: &[u8]) -> (result: Option<i64>)
    ensures
        result == spec_result_of(body@),
        result == json_integer_member_of(body@, "result"@),
{
    json_integer_member(body, "result")
}

/// The result read from any body, of any length and with any other members,
/// is the `i64` member `result` of the JSON document in it.
pub proof fn lemma_result_is_the_result_member(body: Seq<u8>)
    ensures
        spec_result_of(body) == json_integer_member_of(body, "result"@),
{
}

} // verus!
