//! Requests and responses as plain values.
//!
//! The client never touches the network. It says what to send as an
//! [`HttpRequest`], and it is told what came back as a status code and a body.
//! Whoever owns the connection performs the request in between.

use crate::error::{ApiErrorBody, QPayError};
use vstd::prelude::*;
use vstd::string::*;

verus! {

/// The HTTP methods that the payment API is called with.
#[derive(Debug, Clone, Copy, PartialEq, Eq, Structural)]
pub enum HttpMethod {
    Get,
    Post,
    Delete,
}

/// How a request proves who sends it.
#[derive(Debug)]
pub enum Authorization {
    /// HTTP Basic with the primary credential. The transport encodes it.
    Basic { username: String, password: String },
    /// The finished value of the `Authorization` header.
    Header { value: String },
}

/// A request that is ready to be sent.
#[derive(Debug)]
pub struct HttpRequest {
    pub method: HttpMethod,
    pub url: String,
    /// The value of the `Content-Type` header, where the request carries one.
    pub content_type: Option<String>,
    pub authorization: Authorization,
    /// The payload as JSON text, where the operation has one.
    pub body: Option<String>,
}

/// The text of an optional payload.
pub open spec fn body_text(body: Option<String>) -> Option<Seq<char>> {
    match body {
        Some(text) => Some(text@),
        None => None,
    }
}

/// Whether a status code reports success: 200 to 299.
pub open spec fn status_is_success(status_code: u16) -> bool {
    200 <= status_code < 300
}

/// Whether a status code reports success.
pub fn is_success(status_code: u16) -> (r: bool)
    ensures
        r == status_is_success(status_code),
{
    200 <= status_code && status_code < 300
}

/// The reason phrase that `reqwest::StatusCode` knows for a status code:
/// `None` for a number that is no status code (below 100 or above 999) and for
/// a status code without a registered phrase.
pub uninterp spec fn canonical_reason(status_code: u16) -> Option<Seq<char>>;

/// Calls `reqwest::StatusCode::from_u16` and, on the status code it gives,
/// `canonical_reason`. Nothing is claimed of the phrase but that it depends on
/// the number alone.
#[verifier::external_body]
fn status_reason(status_code: u16) -> (r: Option<&'static str>)
    ensures
        canonical_reason(status_code) == match r {
            Some(phrase) => Some(phrase@),
            None => None,
        },
{
    match reqwest::StatusCode::from_u16(status_code) {
        Ok(status) => status.canonical_reason(),
        Err(_) => None,
    }
}

/// A reason phrase, or `Unknown` where there is none.
pub open spec fn reason_or_unknown(reason: Option<Seq<char>>) -> Seq<char> {
    match reason {
        Some(phrase) => phrase,
        None => "Unknown"@,
    }
}

/// The code that stands in for a missing machine code: the reason phrase of
/// the status, or `Unknown` where it has none.
pub open spec fn fallback_code(status_code: u16) -> Seq<char> {
    reason_or_unknown(canonical_reason(status_code))
}

/// The characters of an optional reason phrase.
pub open spec fn reason_text(reason: Option<&str>) -> Option<Seq<char>> {
    match reason {
        Some(phrase) => Some(phrase@),
        None => None,
    }
}

/// A character that may stand in the value of an HTTP header: a tab, or
/// anything from the space upwards except DEL.
pub open spec fn header_value_char(c: char) -> bool {
    c == '\t' || (c as u32 >= 32 && c as u32 != 127)
}

/// Text that can be sent as the value of an HTTP header.
pub open spec fn is_header_value(s: Seq<char>) -> bool {
    forall|i: int| 0 <= i < s.len() ==> header_value_char(#[trigger] s[i])
}

/// The message with which a header value is refused.
pub open spec fn invalid_header_message() -> Seq<char> {
    "failed to parse header value"@
}

/// Calls `reqwest::header::HeaderValue::from_str` and gives the text of its
/// error, `None` where it accepts the value. It refuses a value that holds a
/// byte below 32 other than tab, or the byte 127; the bytes of a character
/// above 127 are all above 127, so the test can be stated on characters. The
/// error always prints the same sentence.
#[verifier::external_body]
fn header_value_error(value: &str) -> (r: Option<String>)
    ensures
        r is None <==> is_header_value(value@),
        r matches Some(message) ==> message@ == invalid_header_message(),
{
    match reqwest::header::HeaderValue::from_str(value) {
        Ok(_) => None,
        Err(e) => Some(e.to_string()),
    }
}

/// Checks that `value` can be sent as a header value.
pub fn check_header_value(value: &str) -> (r: Result<(), QPayError>)
    ensures
        is_header_value(value@) ==> r is Ok,
        !is_header_value(value@) ==> (r matches Err(QPayError::Config(message)) && message@
            == invalid_header_message()),
{
    match header_value_error(value) {
        None => Ok(()),
        Some(message) => Err(QPayError::Config(message)),
    }
}

/// A response whose status is outside 200..=299, before its body has been
/// read as an error envelope.
#[derive(Debug)]
pub struct Rejection {
    pub status_code: u16,
    pub raw_body: String,
}

/// A response, told apart by its status.
#[derive(Debug)]
pub enum Response {
    /// The status is in 200..=299. The body is the result of the exchange.
    Success { body: String },
    /// Any other status. The body may hold an error envelope.
    Rejected(Rejection),
}

/// Tells a response apart by its status code. The body is handed on unchanged
/// either way. Every exchange is read in this one way: the full
/// authentication, the refresh and the resource calls.
pub fn classify_response(status_code: u16, body: String) -> (r: Response)
    ensures
        status_is_success(status_code) ==> r == (Response::Success { body }),
        !status_is_success(status_code) ==> r == Response::Rejected(
            Rejection { status_code, raw_body: body },
        ),
{
    if is_success(status_code) {
        Response::Success { body }
    } else {
        Response::Rejected(Rejection { status_code, raw_body: body })
    }
}

/// The envelope that a body amounts to: the one that was read from it, or the
/// empty one where the body held none.
pub open spec fn envelope_or_empty(envelope: Option<ApiErrorBody>) -> (Seq<char>, Seq<char>) {
    match envelope {
        Some(e) => (e.code@, e.message@),
        None => (Seq::empty(), Seq::empty()),
    }
}

impl Rejection {
    /// The code of the API error, where `reason` is the reason phrase of the
    /// status: the code of the envelope, or, where that is empty, the phrase,
    /// or, where there is none, `Unknown`.
    pub open spec fn error_code_with(
        &self,
        envelope: Option<ApiErrorBody>,
        reason: Option<Seq<char>>,
    ) -> Seq<char> {
        let code = envelope_or_empty(envelope).0;
        if code.len() == 0 {
            reason_or_unknown(reason)
        } else {
            code
        }
    }

    /// The code of the API error that [`Rejection::into_error`] gives.
    pub open spec fn error_code(&self, envelope: Option<ApiErrorBody>) -> Seq<char> {
        self.error_code_with(envelope, canonical_reason(self.status_code))
    }

    /// The message of the API error: the message of the envelope, or, where
    /// that is empty, the body itself.
    pub open spec fn error_message(&self, envelope: Option<ApiErrorBody>) -> Seq<char> {
        let message = envelope_or_empty(envelope).1;
        if message.len() == 0 {
            self.raw_body@
        } else {
            message
        }
    }

    /// The API error that the rejection amounts to, given the reason phrase
    /// of its status.
    ///
    /// `envelope` is what the body gave when read as an error envelope:
    /// `None` where it could not be read as one, empty fields where it did
    /// not carry them. A body that could not be read counts as an envelope
    /// with both fields empty. An empty code is replaced by `reason`, or by
    /// `Unknown` where there is none, and an empty message by the body
    /// itself.
    pub fn error_with_reason(self, envelope: Option<ApiErrorBody>, reason: Option<&str>) -> (e:
        QPayError)
        ensures
            e matches QPayError::Api { status_code, code, message, raw_body } && status_code
                == self.status_code && code@ == self.error_code_with(
                envelope,
                reason_text(reason),
            ) && message@ == self.error_message(envelope) && raw_body@ == self.raw_body@,
    {
        let envelope = match envelope {
            Some(e) => e,
            None => ApiErrorBody::default(),
        };
        let code = if envelope.code.as_str().is_empty() {
            match reason {
                Some(phrase) => String::from_str(phrase),
                None => String::from_str("Unknown"),
            }
        } else {
            envelope.code
        };
        let message = if envelope.message.as_str().is_empty() {
            self.raw_body.clone()
        } else {
            envelope.message
        };
        QPayError::Api { status_code: self.status_code, code, message, raw_body: self.raw_body }
    }

    /// The API error that the rejection amounts to, whichever exchange was
    /// rejected: [`Rejection::error_with_reason`] with the reason phrase that
    /// the status has.
    pub fn into_error(self, envelope: Option<ApiErrorBody>) -> (e: QPayError)
        ensures
            e matches QPayError::Api { status_code, code, message, raw_body } && status_code
                == self.status_code && code@ == self.error_code(envelope) && message@
                == self.error_message(envelope) && raw_body@ == self.raw_body@,
    {
        let reason = status_reason(self.status_code);
        self.error_with_reason(envelope, reason)
    }
}

} // verus!
