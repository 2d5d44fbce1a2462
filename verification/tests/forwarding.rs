use html_2_md::forward::{forward_headers, is_skipped_header, outbound_headers};

fn header(name: &str, value: Option<&str>) -> (String, Option<String>) {
    (name.to_string(), value.map(|v| v.to_string()))
}

fn pair(name: &str, value: &str) -> (String, String) {
    (name.to_string(), value.to_string())
}

#[test]
fn skipped_names_are_recognised() {
    for name in [
        "x-origin-url",
        "host",
        "connection",
        "transfer-encoding",
        "te",
        "trailer",
        "upgrade",
        "proxy-authorization",
        "proxy-authenticate",
        "accept-encoding",
        "keep-alive",
    ] {
        assert!(is_skipped_header(name), "{name}");
    }
    for name in ["cookie", "authorization", "user-agent", "x-aka-function", "Host", "tee"] {
        assert!(!is_skipped_header(name), "{name}");
    }
}

#[test]
fn forwards_ordinary_headers_in_order() {
    let headers = vec![
        header("cookie", Some("a=1")),
        header("user-agent", Some("bot/1.0")),
        header("authorization", Some("Bearer SECRET-REDACTED")),
    ];
    assert_eq!(
        forward_headers(&headers),
        vec![pair("cookie", "a=1"), pair("user-agent", "bot/1.0"), pair("authorization", "Bearer SECRET-REDACTED")]
    );
}

#[test]
fn drops_skipped_headers_in_any_letter_case() {
    let headers = vec![
        header("Host", Some("fn.example")),
        header("X-Origin-URL", Some("aHR0cHM6Ly9leGFtcGxlLmNvbQ")),
        header("Cookie", Some("c=2")),
        header("KEEP-ALIVE", Some("timeout=5")),
        header("Accept-Encoding", Some("gzip")),
        header("TE", Some("trailers")),
    ];
    assert_eq!(forward_headers(&headers), vec![pair("Cookie", "c=2")]);
}

#[test]
fn drops_headers_whose_value_is_not_text() {
    let headers = vec![header("x-binary", None), header("accept", Some("*/*"))];
    assert_eq!(forward_headers(&headers), vec![pair("accept", "*/*")]);
}

#[test]
fn no_headers_forward_nothing() {
    assert!(forward_headers(&Vec::new()).is_empty());
}

#[test]
fn outbound_request_ends_with_the_marker() {
    let headers = vec![header("host", Some("fn.example")), header("cookie", Some("a=1"))];
    assert_eq!(
        outbound_headers(&headers),
        vec![pair("cookie", "a=1"), pair("x-aka-function", "html2md/1.0")]
    );
    assert_eq!(outbound_headers(&Vec::new()), vec![pair("x-aka-function", "html2md/1.0")]);
}
