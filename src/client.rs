//! The generated client caller's decisions: where a request goes, what it
//! carries, and which message a failed call reports.
use vstd::prelude::*;
use crate::method::HttpMethod;
use crate::text::{join2, join3, owned, push_char};

verus! {

/// A request the client caller sends.
#[derive(Debug, Clone, PartialEq, Eq)]
pub struct ClientRequest {
    pub method: HttpMethod,
    /// The path, with the query string for GET.
    pub url: String,
    /// The JSON body, for the other methods.
    pub body: Option<String>,
}

/// What came back for a sent request.
#[derive(Debug, PartialEq, Eq)]
pub enum Reply<T> {
    /// A 2xx status, with the payload as decoded, or the decoder's message.
    Success(Result<T, String>),
    /// Any other status, with the body's text if it could be read.
    Failure { status: u16, text: Option<String> },
}

/// Sends every request as JSON, whatever its method.
pub open spec fn content_type() -> Seq<char> {
    "application/json"@
}

/// The `Content-Type` header value of every request.
pub fn json_content_type() -> (r: String)
    ensures
        r@ == content_type(),
{
    owned("application/json")
}

/// Builds the request for an endpoint at `path`. `encoded` is the parameter
/// container in the method's encoding, if the endpoint has parameters: for GET
/// it follows the path after `?`, for the other methods it is the body.
pub fn build_request(method: HttpMethod, path: &str, encoded: Option<String>) -> (r: ClientRequest)
    ensures
        r.method == method,
        match encoded {
            None => r.url@ == path@ && r.body is None,
            Some(e) => if method == HttpMethod::Get {
                r.url@ == path@ + "?"@ + e@ && r.body is None
            } else {
                r.url@ == path@ && r.body == Some(e)
            },
        },
{
    match encoded {
        None => ClientRequest { method, url: owned(path), body: None },
        Some(e) => match method {
            HttpMethod::Get => ClientRequest { method, url: join3(path, "?", e.as_str()), body: None },
            _ => ClientRequest { method, url: owned(path), body: Some(e) },
        },
    }
}

/// A status in the 2xx range.
pub fn is_success_status(status: u16) -> (r: bool)
    ensures
        r == (200 <= status < 300),
{
    200 <= status && status < 300
}

/// The decimal digit `d`.
pub open spec fn digit_char(d: nat) -> char {
    "0123456789"@[d as int]
}

/// `n` written in decimal.
pub open spec fn decimal(n: nat) -> Seq<char>
    decreases n,
{
    if n < 10 {
        seq![digit_char(n)]
    } else {
        decimal(n / 10).push(digit_char(n % 10))
    }
}

fn push_decimal(out: &mut String, n: u16)
    ensures
        final(out)@ == old(out)@ + decimal(n as nat),
    decreases n,
{
    if n >= 10 {
        push_decimal(out, n / 10);
    }
    proof {
        reveal_strlit("0123456789");
    }
    let d = "0123456789".get_char((n % 10) as usize);
    push_char(out, d);
    proof {
        if n >= 10 {
            assert(decimal(n as nat) == decimal((n / 10) as nat).push(digit_char((n % 10) as nat)));
        }
    }
}

/// What serde_json reads as the string member `key` of the JSON object in `text`.
pub uninterp spec fn json_string_member(text: Seq<char>, key: Seq<char>) -> Option<Seq<char>>;

/// Relies on `serde_json::from_str::<Value>`, `Value::get` and `Value::as_str`:
/// the string under `key` when `text` is a JSON object holding one there.
#[verifier::external_body]
fn string_member(text: &str, key: &str) -> (r: Option<String>)
    ensures
        match r {
            Some(s) => json_string_member(text@, key@) == Some(s@),
            None => json_string_member(text@, key@) is None,
        },
{
    match serde_json::from_str::<serde_json::Value>(text) {
        Ok(v) => v.get(key).and_then(|m| m.as_str()).map(|s| s.to_string()),
        Err(_) => None,
    }
}

/// The message of a failed response whose body reads `text`, given what it
/// holds under "error" and "message": the first of those, else the text.
pub open spec fn failure_text(
    text: Seq<char>,
    error_member: Option<Seq<char>>,
    message_member: Option<Seq<char>>,
) -> Seq<char> {
    match error_member {
        Some(m) => m,
        None => match message_member {
            Some(m) => m,
            None => text,
        },
    }
}

/// Picks the message of a failed response from its text and the two members
/// read from it.
pub fn pick_failure_text(text: String, error_member: Option<String>, message_member: Option<String>) -> (r: String)
    ensures
        r@ == failure_text(
            text@,
            match error_member {
                Some(m) => Some(m@),
                None => None,
            },
            match message_member {
                Some(m) => Some(m@),
                None => None,
            },
        ),
{
    match error_member {
        Some(m) => m,
        None => match message_member {
            Some(m) => m,
            None => text,
        },
    }
}

/// The message of a failed response: the JSON members "error" then
/// "message" of its body, else the body text, else a generic status message.
pub open spec fn failure_message(status: u16, text: Option<Seq<char>>) -> Seq<char> {
    match text {
        Some(t) => failure_text(
            t,
            json_string_member(t, "error"@),
            json_string_member(t, "message"@),
        ),
        None => "Request failed with status "@ + decimal(status as nat),
    }
}

/// Extracts the message of a non-2xx response with status `status` and body
/// `text` (`None` if it could not be read).
pub fn response_error_message(status: u16, text: Option<String>) -> (r: String)
    ensures
        r@ == failure_message(
            status,
            match text {
                Some(t) => Some(t@),
                None => None,
            },
        ),
{
    match text {
        Some(t) => {
            proof {
                reveal_strlit("error");
                reveal_strlit("message");
            }
            let e = string_member(t.as_str(), "error");
            let m = string_member(t.as_str(), "message");
            pick_failure_text(t, e, m)
        },
        None => {
            let mut out = owned("Request failed with status ");
            push_decimal(&mut out, status);
            out
        },
    }
}

/// The result the caller returns, as seen by contracts.
pub open spec fn call_result_of<T>(sent: Result<Reply<T>, String>) -> Result<T, Seq<char>> {
    match sent {
        Err(e) => Err("Failed to fetch data: "@ + e@),
        Ok(Reply::Success(Ok(v))) => Ok(v),
        Ok(Reply::Success(Err(e))) => Err("Failed to parse response: "@ + e@),
        Ok(Reply::Failure { status, text }) => Err(
            failure_message(
                status,
                match text {
                    Some(t) => Some(t@),
                    None => None,
                },
            ),
        ),
    }
}

/// Turns what a call brought back into the caller's result: the payload on
/// success, otherwise one message saying what went wrong. `sent` is the
/// transport's message where nothing came back.
pub fn call_result<T>(sent: Result<Reply<T>, String>) -> (r: Result<T, String>)
    ensures
        match r {
            Ok(v) => call_result_of(sent) == Ok::<T, Seq<char>>(v),
            Err(m) => call_result_of(sent) == Err::<T, Seq<char>>(m@),
        },
{
    match sent {
        Err(e) => Err(join2("Failed to fetch data: ", e.as_str())),
        Ok(Reply::Success(Ok(v))) => Ok(v),
        Ok(Reply::Success(Err(e))) => Err(join2("Failed to parse response: ", e.as_str())),
        Ok(Reply::Failure { status, text }) => Err(response_error_message(status, text)),
    }
}

} // verus!
