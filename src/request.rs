//! Decoding of request payloads.
use vstd::prelude::*;

verus! {

/// A request from the host.
#[derive(Clone, Copy, Debug, PartialEq, Eq, Structural)]
pub enum Request {
    /// Ask for a fresh pressure reading.
    GetState,
}

/// The string under the `"type"` key of the JSON object that `bytes` hold, or
/// `None` when the bytes are no JSON object with such a string.
pub uninterp spec fn json_type_tag(bytes: Seq<u8>) -> Option<Seq<char>>;

/// Relies on serde_json::from_slice to parse the payload as a
/// `serde_json::Value`, and on `Value::get` and `Value::as_str` to pick the
/// string under the object's `"type"` key. The result depends on the bytes
/// alone.
#[verifier::external_body]
fn request_tag(bytes: &[u8]) -> (r: Option<String>)
    ensures
        json_type_tag(bytes@) == (match r {
            Some(t) => Some(t@),
            None => None::<Seq<char>>,
        }),
{
    let value: serde_json::Value = serde_json::from_slice(bytes).ok()?;
    value.get("type").and_then(|t| t.as_str()).map(|t| t.to_owned())
}

/// The request that a tag names: only `get_state` is known.
pub open spec fn request_of_tag(tag: Option<Seq<char>>) -> Option<Request> {
    if tag == Some("get_state"@) {
        Some(Request::GetState)
    } else {
        None
    }
}

/// The request that a payload holds, if it is a known one.
pub open spec fn request_of_payload(bytes: Seq<u8>) -> Option<Request> {
    request_of_tag(json_type_tag(bytes))
}

/// Maps a request tag to the request it names; `None` for a missing or
/// unknown tag.
pub fn request_from_tag(tag: Option<&str>) -> (r: Option<Request>)
    ensures
        r == request_of_tag(
            match tag {
                Some(t) => Some(t@),
                None => None,
            },
        ),
{
    match tag {
        Some(t) => {
            let got = t.to_owned();
            let known = "get_state".to_owned();
            if got == known {
                Some(Request::GetState)
            } else {
                None
            }
        },
        None => None,
    }
}

/// Decodes a request payload; `None` when it is not valid JSON or not a known request.
pub fn parse_request(bytes: &[u8]) -> (r: Option<Request>)
    ensures
        r == request_of_payload(bytes@),
{
    let tag = request_tag(bytes);
    match tag {
        Some(t) => request_from_tag(Some(t.as_str())),
        None => request_from_tag(None),
    }
}

} // verus!
