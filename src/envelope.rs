//! The response envelope: every body is a JSON object with exactly two
//! members, `status` and `result`, both strings; the endpoint's output is
//! `result`, verbatim.
use vstd::prelude::*;

verus! {

/// The text of the string member `key` of the JSON object that `body` holds;
/// none where `body` is not a JSON object, or the member is missing or is not
/// a string.
pub uninterp spec fn json_text_member(body: Seq<char>, key: Seq<char>) -> Option<Seq<char>>;

/// How many distinct members the JSON object that `body` holds has; none
/// where `body` is not a JSON object.
pub uninterp spec fn json_member_count(body: Seq<char>) -> Option<nat>;

/// The values of an optional count.
pub open spec fn count_of(n: Option<usize>) -> Option<nat> {
    match n {
        Some(k) => Some(k as nat),
        None => None,
    }
}

/// The texts of some optional strings.
pub open spec fn text_of(s: Option<String>) -> Option<Seq<char>> {
    match s {
        Some(t) => Some(t@),
        None => None,
    }
}

/// Relies on `serde_json::from_str` (into a `serde_json::Value`), then
/// `Value::get` with a string key, which reads a member of an object, and
/// `Value::as_str`, which gives the text of a string value.
#[verifier::external_body]
fn text_member(body: &str, key: &str) -> (r: Option<String>)
    ensures
        text_of(r) == json_text_member(body@, key@),
{
    let value: serde_json::Value = serde_json::from_str(body).ok()?;
    value.get(key).and_then(|v| v.as_str()).map(|s| s.to_owned())
}

/// Relies on `serde_json::from_str` (into a `serde_json::Value`), then
/// `Value::as_object`, which gives the members of an object, and `Map::len`,
/// which counts them.
#[verifier::external_body]
fn member_count(body: &str) -> (r: Option<usize>)
    ensures
        count_of(r) == json_member_count(body@),
{
    let value: serde_json::Value = serde_json::from_str(body).ok()?;
    value.as_object().map(|m| m.len())
}

/// A decoded response: `status` is carried along uninterpreted.
pub struct ResponseEnvelope {
    pub status: String,
    pub result: String,
}

/// A body that does not hold the envelope.
#[derive(Debug, PartialEq, Eq, Structural)]
pub enum EnvelopeError {
    /// The body is not a JSON object whose only members are the strings
    /// `status` and `result`.
    Malformed,
}

/// The envelope made of what was read from a body: its number of members and
/// its two string members. It exists only when both are there and nothing
/// else is.
pub fn envelope_from_members(
    members: Option<usize>,
    status: Option<String>,
    result: Option<String>,
) -> (r: Result<ResponseEnvelope, EnvelopeError>)
    ensures
        r is Ok <==> (status is Some && result is Some && members == Some(2usize)),
        r is Ok ==> r->Ok_0.status@ == status->Some_0@ && r->Ok_0.result@ == result->Some_0@,
        r is Err ==> r->Err_0 == EnvelopeError::Malformed,
{
    match (members, status, result) {
        (Some(2), Some(status), Some(result)) => Ok(ResponseEnvelope { status, result }),
        _ => Err(EnvelopeError::Malformed),
    }
}

/// Decodes a response body into its envelope.
pub fn decode_envelope(body: &str) -> (r: Result<ResponseEnvelope, EnvelopeError>)
    ensures
        r is Ok <==> (json_text_member(body@, "status"@) is Some && json_text_member(
            body@,
            "result"@,
        ) is Some && json_member_count(body@) == Some(2nat)),
        r is Ok ==> Some(r->Ok_0.status@) == json_text_member(body@, "status"@) && Some(
            r->Ok_0.result@,
        ) == json_text_member(body@, "result"@),
        r is Err ==> r->Err_0 == EnvelopeError::Malformed,
{
    let members = member_count(body);
    let status = text_member(body, "status");
    let result = text_member(body, "result");
    envelope_from_members(members, status, result)
}

/// The `result` member of a response body, verbatim; an error where the body
/// does not hold the envelope.
pub fn extract_result(body: &str) -> (r: Result<String, EnvelopeError>)
    ensures
        r is Ok <==> (json_text_member(body@, "status"@) is Some && json_text_member(
            body@,
            "result"@,
        ) is Some && json_member_count(body@) == Some(2nat)),
        r is Ok ==> Some(r->Ok_0@) == json_text_member(body@, "result"@),
        r is Err ==> r->Err_0 == EnvelopeError::Malformed,
{
    match decode_envelope(body) {
        Ok(envelope) => Ok(envelope.result),
        Err(e) => Err(e),
    }
}

} // verus!
