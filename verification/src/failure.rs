//! The ways a request can fail, the HTTP status each one is answered with,
//! and the JSON reply that carries its message.

use vstd::prelude::*;
use crate::text::{decimal, json_escape, push_decimal, push_json_escaped};
use crate::{MAX_BODY_SIZE, MAX_REDIRECTS};

verus! {

/// Why a request is answered with an error instead of a page.
#[derive(Debug, PartialEq, Eq)]
pub enum Failure {
    /// The request carries no readable `x-origin-url` header.
    MissingOriginUrl,
    /// The header is not Base64 in the URL-safe alphabet.
    InvalidBase64,
    /// The decoded header bytes are not UTF-8.
    InvalidUtf8,
    /// The decoded text does not parse as an absolute URL.
    InvalidUrl,
    /// The URL parses but its scheme is not `https`.
    NotHttps,
    /// The outbound request for `url` could not be sent or answered.
    FetchFailed { url: String },
    /// A redirect arrived after the redirect budget was spent.
    TooManyRedirects,
    /// A redirect with this status named no `Location`.
    RedirectWithoutLocation { status: u16 },
    /// A redirect led to a target that is not an `https` URL.
    RedirectNotHttps,
    /// The origin answered with this status, neither a redirect nor a success.
    RemoteStatus { status: u16 },
    /// The HTML document grew past the conversion limit.
    BodyTooLarge,
    /// Reading the body of `url` failed with `detail`.
    ReadFailed { url: String, detail: String },
    /// The origin sent an HTML response with an empty body.
    EmptyBody,
    /// The converter refused the document.
    ConversionFailed,
}

/// A complete reply: status, `content-type` and the text of the body.
#[derive(Debug, PartialEq, Eq)]
pub struct Reply {
    pub status: u16,
    pub content_type: String,
    pub body: String,
}

/// The status a failure is answered with: 400 for a bad request header,
/// 422 for what the origin sent, 502 for what went wrong on the way.
pub open spec fn failure_status(f: Failure) -> u16 {
    match f {
        Failure::MissingOriginUrl => 400,
        Failure::InvalidBase64 => 400,
        Failure::InvalidUtf8 => 400,
        Failure::InvalidUrl => 400,
        Failure::NotHttps => 400,
        Failure::FetchFailed { .. } => 502,
        Failure::TooManyRedirects => 502,
        Failure::RedirectWithoutLocation { .. } => 502,
        Failure::RedirectNotHttps => 502,
        Failure::RemoteStatus { .. } => 422,
        Failure::BodyTooLarge => 422,
        Failure::ReadFailed { .. } => 502,
        Failure::EmptyBody => 422,
        Failure::ConversionFailed => 422,
    }
}

/// The human-readable message of a failure.
pub open spec fn failure_message(f: Failure) -> Seq<char> {
    match f {
        Failure::MissingOriginUrl => "Missing required header: x-origin-url"@,
        Failure::InvalidBase64 => "Invalid Base64 encoding in x-origin-url header"@,
        Failure::InvalidUtf8 => "Invalid UTF-8 in decoded x-origin-url"@,
        Failure::InvalidUrl => "Invalid URL: x-origin-url is not a valid URL"@,
        Failure::NotHttps => "Invalid URL: x-origin-url must use https"@,
        Failure::FetchFailed { url } => "Failed to fetch: "@ + url@,
        Failure::TooManyRedirects => "Too many redirects (max "@ + decimal(MAX_REDIRECTS as nat)
            + ")"@,
        Failure::RedirectWithoutLocation { status } => "Redirect "@ + decimal(status as nat)
            + " received without a Location header"@,
        Failure::RedirectNotHttps => "Redirect target is not an https URL"@,
        Failure::RemoteStatus { status } => "Remote returned status "@ + decimal(status as nat),
        Failure::BodyTooLarge => "Response too large (max "@ + decimal(MAX_BODY_SIZE as nat)
            + " bytes)"@,
        Failure::ReadFailed { url, detail } => "Failed to read body from "@ + url@ + ": "@
            + detail@,
        Failure::EmptyBody => "Empty response from remote"@,
        Failure::ConversionFailed => "Failed to convert HTML to Markdown"@,
    }
}

/// The JSON object `{"error":"<message>"}`, with the message escaped as a
/// JSON string.
pub open spec fn error_json(message: Seq<char>) -> Seq<char> {
    "{\"error\":\""@ + json_escape(message) + "\"}"@
}

/// `r` carries the same outcome as `s`: the same text on success, the same
/// failure otherwise.
pub open spec fn text_result_is(r: Result<String, Failure>, s: Result<Seq<char>, Failure>) -> bool {
    match (r, s) {
        (Ok(a), Ok(b)) => a@ == b,
        (Err(a), Err(b)) => a == b,
        _ => false,
    }
}

/// Builds the JSON error body for `message`.
pub fn error_body(message: &str) -> (r: String)
    ensures
        r@ == error_json(message@),
{
    let mut out = String::from_str("{\"error\":\"");
    push_json_escaped(&mut out, message);
    out.append("\"}");
    out
}

impl Failure {
    /// Whether the failure lies in the request's own header.
    pub open spec fn is_request_error(self) -> bool {
        ||| self is MissingOriginUrl
        ||| self is InvalidBase64
        ||| self is InvalidUtf8
        ||| self is InvalidUrl
        ||| self is NotHttps
    }

    /// The HTTP status this failure is answered with.
    pub fn status(&self) -> (r: u16)
        ensures
            r == failure_status(*self),
    {
        match self {
            Failure::MissingOriginUrl => 400,
            Failure::InvalidBase64 => 400,
            Failure::InvalidUtf8 => 400,
            Failure::InvalidUrl => 400,
            Failure::NotHttps => 400,
            Failure::FetchFailed { .. } => 502,
            Failure::TooManyRedirects => 502,
            Failure::RedirectWithoutLocation { .. } => 502,
            Failure::RedirectNotHttps => 502,
            Failure::RemoteStatus { .. } => 422,
            Failure::BodyTooLarge => 422,
            Failure::ReadFailed { .. } => 502,
            Failure::EmptyBody => 422,
            Failure::ConversionFailed => 422,
        }
    }

    /// The message of this failure.
    pub fn message(&self) -> (r: String)
        ensures
            r@ == failure_message(*self),
    {
        match self {
            Failure::MissingOriginUrl => String::from_str("Missing required header: x-origin-url"),
            Failure::InvalidBase64 => String::from_str(
                "Invalid Base64 encoding in x-origin-url header",
            ),
            Failure::InvalidUtf8 => String::from_str("Invalid UTF-8 in decoded x-origin-url"),
            Failure::InvalidUrl => String::from_str("Invalid URL: x-origin-url is not a valid URL"),
            Failure::NotHttps => String::from_str("Invalid URL: x-origin-url must use https"),
            Failure::FetchFailed { url } => {
                let mut out = String::from_str("Failed to fetch: ");
                out.append(url.as_str());
                out
            },
            Failure::TooManyRedirects => {
                let mut out = String::from_str("Too many redirects (max ");
                push_decimal(&mut out, MAX_REDIRECTS as u64);
                out.append(")");
                out
            },
            Failure::RedirectWithoutLocation { status } => {
                let mut out = String::from_str("Redirect ");
                push_decimal(&mut out, *status as u64);
                out.append(" received without a Location header");
                out
            },
            Failure::RedirectNotHttps => String::from_str("Redirect target is not an https URL"),
            Failure::RemoteStatus { status } => {
                let mut out = String::from_str("Remote returned status ");
                push_decimal(&mut out, *status as u64);
                out
            },
            Failure::BodyTooLarge => {
                let mut out = String::from_str("Response too large (max ");
                push_decimal(&mut out, MAX_BODY_SIZE as u64);
                out.append(" bytes)");
                out
            },
            Failure::ReadFailed { url, detail } => {
                let mut out = String::from_str("Failed to read body from ");
                out.append(url.as_str());
                out.append(": ");
                out.append(detail.as_str());
                out
            },
            Failure::EmptyBody => String::from_str("Empty response from remote"),
            Failure::ConversionFailed => String::from_str("Failed to convert HTML to Markdown"),
        }
    }

    /// The reply that reports this failure: its status, JSON content type
    /// and the JSON body with its message.
    pub fn reply(&self) -> (r: Reply)
        ensures
            r.status == failure_status(*self),
            r.content_type@ == "application/json"@,
            r.body@ == error_json(failure_message(*self)),
    {
        let message = self.message();
        Reply {
            status: self.status(),
            content_type: String::from_str("application/json"),
            body: error_body(message.as_str()),
        }
    }
}

/// Every failure is answered with 400, 422 or 502, and with 400 exactly
/// when the request's own `x-origin-url` header is at fault.
pub proof fn failure_status_classes(f: Failure)
    ensures
        failure_status(f) == 400 || failure_status(f) == 422 || failure_status(f) == 502,
        failure_status(f) == 400 <==> f.is_request_error(),
{
}

} // verus!
