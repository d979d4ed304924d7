use vstd::prelude::*;
use vstd::string::StringExecFns;
use vstd::utf8::{decode_utf8, valid_utf8};
use crate::error::{ErrorKind, ServiceError};
use crate::json::{find_text, member_text, object_members_of, parse_object};

verus! {

/// Relies on `String::from_utf8`: it accepts exactly the well-formed UTF-8
/// byte sequences and keeps the characters they encode.
#[verifier::external_body]
fn utf8_text(bytes: Vec<u8>) -> (r: Option<String>)
    ensures
        r.is_some() == valid_utf8(bytes@),
        r.is_some() ==> r.unwrap()@ == decode_utf8(bytes@),
{
    String::from_utf8(bytes).ok()
}

/// What an inbound body yields: UTF-8 text that is a JSON object with a
/// string `query` member.
pub open spec fn query_outcome(body: Seq<u8>) -> Result<Seq<char>, ErrorKind> {
    if !valid_utf8(body) {
        Err(ErrorKind::InvalidRequest)
    } else {
        match object_members_of(decode_utf8(body)) {
            None => Err(ErrorKind::InvalidRequest),
            Some(m) => match member_text(m, "query"@) {
                None => Err(ErrorKind::InvalidRequest),
                Some(q) => Ok(q),
            },
        }
    }
}

/// Extracts the GraphQL query document from an inbound request body.
pub fn query_from_body(body: Vec<u8>) -> (r: Result<String, ServiceError>)
    ensures
        r.is_ok() ==> query_outcome(body@) == Ok::<_, ErrorKind>(r.unwrap()@),
        r.is_err() ==> query_outcome(body@) == Err::<Seq<char>, _>(r.unwrap_err().kind),
{
    let text = match utf8_text(body) {
        None => {
            return Err(ServiceError::new(ErrorKind::InvalidRequest, "body is not UTF-8"));
        },
        Some(text) => text,
    };
    match parse_object(text.as_str()) {
        None => Err(ServiceError::new(ErrorKind::InvalidRequest, "body is no JSON object")),
        Some(m) => match find_text(&m, &String::from_str("query")) {
            None => Err(ServiceError::new(ErrorKind::InvalidRequest, "missing query")),
            Some(q) => Ok(q),
        },
    }
}

/// What `serde_json` writes for a string: the JSON string literal, quoted and
/// escaped.
pub uninterp spec fn json_string_of(s: Seq<char>) -> Seq<char>;

/// Relies on the `Display` of `serde_json::Value::String`, which writes the
/// quoted, escaped JSON literal of the text.
#[verifier::external_body]
fn json_string(s: &str) -> (r: String)
    ensures
        r@ == json_string_of(s@),
{
    serde_json::Value::String(s.to_string()).to_string()
}

/// The outbound response: status, content type and body.
#[derive(Clone, Debug)]
pub struct HttpReply {
    pub status: u16,
    pub content_type: String,
    pub body: String,
}

/// A GraphQL execution result goes out with status 200, field errors
/// included.
pub fn execution_reply(result_json: String) -> (r: HttpReply)
    ensures
        r.status == 200,
        r.content_type@ == "application/json"@,
        r.body == result_json,
{
    HttpReply { status: 200, content_type: String::from_str("application/json"), body: result_json }
}

/// `{"errors":[{"message":<message>}]}`
pub open spec fn error_payload(message: Seq<char>) -> Seq<char> {
    "{\"errors\":[{\"message\":"@ + json_string_of(message) + "}]}"@
}

/// A failure outside any field goes out as a structured error payload: a
/// malformed request with status 400, anything else with status 500.
pub fn failure_reply(error: &ServiceError) -> (r: HttpReply)
    ensures
        r.status == (if error.kind == ErrorKind::InvalidRequest { 400u16 } else { 500u16 }),
        r.content_type@ == "application/json"@,
        r.body@ == error_payload(error.message@),
{
    let mut body = String::from_str("{\"errors\":[{\"message\":");
    let quoted = json_string(error.message.as_str());
    body.append(quoted.as_str());
    body.append("}]}");
    let status: u16 = if error.kind == ErrorKind::InvalidRequest { 400 } else { 500 };
    HttpReply { status, content_type: String::from_str("application/json"), body }
}

} // verus!
