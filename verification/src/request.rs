//! The inbound call model and the decoding of a framed payload.
//!
//! A payload decodes into a [`Request`] when it is a JSON object whose
//! `method` member is a string; the `data` member defaults to JSON null
//! when absent, and its shape means something only to the application
//! layer, so the core carries it opaquely.  A decode failure is the hard
//! failure of the protocol: it ends the connection.

use vstd::prelude::*;

verus! {

/// serde_json's JSON value type, declared so that a `Request` can carry
/// the call's argument through the core without reading it.
#[verifier::external_type_specification]
#[verifier::external_body]
pub struct ExValue(serde_json::Value);

/// An inbound call: a non-empty method name and its structured argument.
pub struct Request {
    pub method: String,
    pub data: serde_json::Value,
}

/// The method string that the payload bytes decode to, if they decode as
/// a `{method, data}` call at all.
pub uninterp spec fn decoded_method(bytes: Seq<u8>) -> Option<Seq<char>>;

/// The hard failure: a framed payload that does not decode as a call.
#[derive(Clone, Copy, Debug, PartialEq, Eq, Structural)]
pub struct DecodeError;

/// Relies on `serde_json::from_slice` and `serde_json::Value::{get,
/// as_str}`: the payload decodes exactly when it is JSON whose top level
/// is an object with a string `method` member, `data` defaulting to JSON
/// null when absent.  The decode depends on the payload bytes alone;
/// `decoded_method` names the method string it extracts.
#[verifier::external_body]
fn decode_call(bytes: &[u8]) -> (r: Option<Request>)
    ensures
        r is Some <==> decoded_method(bytes@) is Some,
        r matches Some(req) ==> Some(req.method@) == decoded_method(bytes@),
{
    let value: serde_json::Value = serde_json::from_slice(bytes).ok()?;
    let method = value.get("method")?.as_str()?.to_owned();
    let data = value.get("data").cloned().unwrap_or(serde_json::Value::Null);
    Some(Request { method, data })
}

/// A payload is a well-formed call when it decodes and the decoded
/// method name is non-empty.
pub open spec fn call_ok(bytes: Seq<u8>) -> bool {
    match decoded_method(bytes) {
        Some(m) => m.len() > 0,
        None => false,
    }
}

/// Decodes a framed payload into a `Request`.
///
/// Succeeds exactly on well-formed calls, so every parsed `Request`
/// carries a non-empty method; an empty method name counts as a decode
/// failure.
pub fn parse_request(payload: &[u8]) -> (r: Result<Request, DecodeError>)
    ensures
        r is Ok <==> call_ok(payload@),
        r matches Ok(req) ==> Some(req.method@) == decoded_method(payload@) && req.method@.len()
            > 0,
{
    match decode_call(payload) {
        None => Err(DecodeError),
        Some(req) => {
            if req.method.as_str().is_empty() {
                Err(DecodeError)
            } else {
                Ok(req)
            }
        },
    }
}

} // verus!
