use crate::codec::{append_digits, digits};
use vstd::prelude::*;

verus! {

#[verifier::external_type_specification]
#[verifier::external_body]
pub struct ExUrlParseError(url::ParseError);

/// The string member `key` of the JSON object that `text` holds, if `text` is a JSON
/// object and that member is a string.
pub uninterp spec fn json_string_member(text: Seq<char>, key: Seq<char>) -> Option<Seq<char>>;

/// Relies on serde_json::from_str into a `serde_json::Value`, then `Value::get` and
/// `Value::as_str`: looks up a string member of a JSON object.
#[verifier::external_body]
fn string_member(text: &str, key: &str) -> (r: Option<String>)
    ensures
        r is Some <==> json_string_member(text@, key@) is Some,
        r is Some ==> r->0@ == json_string_member(text@, key@)->0,
{
    let value: serde_json::Value = serde_json::from_str(text).ok()?;
    let member = value.get(key)?.as_str()?;
    Some(member.to_string())
}

/// A structured error payload returned by the vendor.
#[derive(Debug)]
pub struct ServerError {
    pub code: String,
    pub message: String,
    pub request_id: String,
}

#[derive(Debug)]
pub enum ErrorInfo {
    /// The caller left out a field that the request needs; no network call was made.
    MissingParameter(String),
    /// The vendor answered with a structured error payload.
    ServerError(ServerError),
    /// The network or HTTP layer failed.
    TransportError(String),
    /// A response did not match the expected schema at `path`.
    DeserializationError { path: String, message: String },
    UrlParseError(url::ParseError),
    /// The token store holds no token.
    NoAccessToken,
    Msg(String),
}

#[derive(Debug)]
pub struct AlipanError {
    pub inner: ErrorInfo,
}

/// The three members of a structured error payload, if `text` holds one.
pub open spec fn server_error_members(text: Seq<char>) -> Option<(Seq<char>, Seq<char>, Seq<char>)> {
    let code = json_string_member(text, "code"@);
    let message = json_string_member(text, "message"@);
    let request_id = json_string_member(text, "requestId"@);
    if code is Some && message is Some && request_id is Some {
        Some((code->0, message->0, request_id->0))
    } else {
        None
    }
}

pub open spec fn is_server_error(e: ErrorInfo, code: Seq<char>, message: Seq<char>, request_id: Seq<char>) -> bool {
    &&& e is ServerError
    &&& e->ServerError_0.code@ == code
    &&& e->ServerError_0.message@ == message
    &&& e->ServerError_0.request_id@ == request_id
}

/// The generic message for a failure status whose body is not a structured error.
pub open spec fn server_status_message(status: u16, content: Seq<char>) -> Seq<char> {
    "server error: code: "@ + digits(status as nat) + ", content: "@ + content
}

pub open spec fn is_missing(e: ErrorInfo, name: Seq<char>) -> bool {
    e is MissingParameter && e->MissingParameter_0@ == name
}

impl AlipanError {
    pub fn new(info: ErrorInfo) -> (r: Self)
        ensures
            r.inner == info,
    {
        AlipanError { inner: info }
    }

    pub fn msg(msg: String) -> (r: Self)
        ensures
            r.inner == ErrorInfo::Msg(msg),
    {
        AlipanError::new(ErrorInfo::Msg(msg))
    }

    pub fn require_param_missing(name: &str) -> (r: Self)
        ensures
            is_missing(r.inner, name@),
    {
        AlipanError::new(ErrorInfo::MissingParameter(String::from_str(name)))
    }

    /// The error for a failure status, from the members found in its body: a structured
    /// error when all three are there, else a generic message with the status and the body.
    pub fn from_server_members(
        status: u16,
        content: &str,
        code: Option<String>,
        message: Option<String>,
        request_id: Option<String>,
    ) -> (r: Self)
        ensures
            (code is Some && message is Some && request_id is Some) ==> is_server_error(
                r.inner,
                code->0@,
                message->0@,
                request_id->0@,
            ),
            !(code is Some && message is Some && request_id is Some) ==> (r.inner is Msg
                && r.inner->Msg_0@ == server_status_message(status, content@)),
    {
        match (code, message, request_id) {
            (Some(code), Some(message), Some(request_id)) => AlipanError::new(
                ErrorInfo::ServerError(ServerError { code, message, request_id }),
            ),
            _ => {
                let mut text = String::from_str("server error: code: ");
                append_digits(&mut text, status as u64);
                text.append(", content: ");
                text.append(content);
                AlipanError::msg(text)
            },
        }
    }

    /// The error for a response with failure status `status` and body `content`.
    pub fn server(status: u16, content: &str) -> (r: Self)
        ensures
            match server_error_members(content@) {
                Some(m) => is_server_error(r.inner, m.0, m.1, m.2),
                None => r.inner is Msg && r.inner->Msg_0@ == server_status_message(status, content@),
            },
    {
        let code = string_member(content, "code");
        let message = string_member(content, "message");
        let request_id = string_member(content, "requestId");
        AlipanError::from_server_members(status, content, code, message, request_id)
    }
}

} // verus!
