use html_2_md::failure::{error_body, Failure};
use html_2_md::text::{push_decimal, text_contains, text_eq};

fn check(f: Failure, status: u16, message: &str) {
    assert_eq!(f.status(), status);
    assert_eq!(f.message(), message);
    let reply = f.reply();
    assert_eq!(reply.status, status);
    assert_eq!(reply.content_type, "application/json");
    assert_eq!(reply.body, format!("{{\"error\":\"{message}\"}}"));
}

#[test]
fn request_errors_are_400() {
    check(Failure::MissingOriginUrl, 400, "Missing required header: x-origin-url");
    check(Failure::InvalidBase64, 400, "Invalid Base64 encoding in x-origin-url header");
    check(Failure::InvalidUtf8, 400, "Invalid UTF-8 in decoded x-origin-url");
    check(Failure::InvalidUrl, 400, "Invalid URL: x-origin-url is not a valid URL");
    check(Failure::NotHttps, 400, "Invalid URL: x-origin-url must use https");
}

#[test]
fn origin_errors_are_422() {
    check(Failure::RemoteStatus { status: 404 }, 422, "Remote returned status 404");
    check(Failure::BodyTooLarge, 422, "Response too large (max 10485760 bytes)");
    check(Failure::EmptyBody, 422, "Empty response from remote");
    check(Failure::ConversionFailed, 422, "Failed to convert HTML to Markdown");
}

#[test]
fn transport_errors_are_502() {
    check(
        Failure::FetchFailed { url: "https://unauthorized.com/".to_string() },
        502,
        "Failed to fetch: https://unauthorized.com/",
    );
    check(Failure::TooManyRedirects, 502, "Too many redirects (max 10)");
    check(Failure::RedirectNotHttps, 502, "Redirect target is not an https URL");
    check(
        Failure::RedirectWithoutLocation { status: 301 },
        502,
        "Redirect 301 received without a Location header",
    );
    check(
        Failure::ReadFailed { url: "https://example.com/".to_string(), detail: "reset".to_string() },
        502,
        "Failed to read body from https://example.com/: reset",
    );
}

#[test]
fn missing_header_body_matches_the_documented_one() {
    assert_eq!(
        Failure::MissingOriginUrl.reply().body,
        "{\"error\":\"Missing required header: x-origin-url\"}"
    );
}

#[test]
fn error_body_escapes_the_message() {
    assert_eq!(error_body(""), "{\"error\":\"\"}");
    assert_eq!(error_body("plain text / é"), "{\"error\":\"plain text / é\"}");
    assert_eq!(error_body("a\"b"), r#"{"error":"a\"b"}"#);
    assert_eq!(error_body("C:\\dir"), r#"{"error":"C:\\dir"}"#);
    assert_eq!(error_body("line\nnext\ttab\u{1}"), r#"{"error":"line\u000anext\u0009tab\u0001"}"#);
    assert_eq!(error_body("\u{1f}\u{7f}"), "{\"error\":\"\\u001f\u{7f}\"}");
}

#[test]
fn messages_with_quotes_still_give_json() {
    let failure = Failure::FetchFailed { url: "https://example.com/\"x\"".to_string() };
    assert_eq!(failure.reply().body, r#"{"error":"Failed to fetch: https://example.com/\"x\""}"#);
    let failure = Failure::ReadFailed { url: "https://example.com/".to_string(), detail: "bad \\ \"chunk\"".to_string() };
    assert_eq!(
        failure.reply().body,
        r#"{"error":"Failed to read body from https://example.com/: bad \\ \"chunk\""}"#
    );
}

#[test]
fn decimal_rendering() {
    for n in [0u64, 7, 10, 65535, 10485760, u64::MAX] {
        let mut s = String::from("n=");
        push_decimal(&mut s, n);
        assert_eq!(s, format!("n={n}"));
    }
}

#[test]
fn text_search() {
    assert!(text_contains("text/html; charset=utf-8", "text/html"));
    assert!(text_contains("text/html", "text/html"));
    assert!(text_contains("anything", ""));
    assert!(!text_contains("text/htm", "text/html"));
    assert!(!text_contains("TEXT/HTML", "text/html"));
    assert!(!text_contains("", "x"));
    assert!(text_contains("ééx", "éx"));
    assert!(text_eq("host", "host"));
    assert!(!text_eq("host", "hos"));
    assert!(!text_eq("Host", "host"));
}
