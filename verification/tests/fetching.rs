use html_2_md::failure::Failure;
use html_2_md::fetch::{begin, redirect_target_from, resolve_redirect, Fetcher, Step};
use html_2_md::MAX_REDIRECTS;

fn fetcher(url: &str) -> Fetcher {
    Fetcher::new(url.to_string(), vec![("x-aka-function".to_string(), "html2md/1.0".to_string())]).unwrap()
}

#[test]
fn a_fetch_only_starts_from_an_https_url() {
    assert!(Fetcher::new("http://example.com/".to_string(), Vec::new()).is_none());
    assert!(Fetcher::new("https//example.com/".to_string(), Vec::new()).is_none());
    assert!(Fetcher::new("HTTPS://example.com/".to_string(), Vec::new()).is_none());
    assert!(Fetcher::new("https:".to_string(), Vec::new()).is_some());
    assert_eq!(Fetcher::new("https://example.com/".to_string(), Vec::new()).unwrap().url(), "https://example.com/");
}

#[test]
fn begin_reads_the_origin_and_prepares_headers() {
    let request = vec![
        ("host".to_string(), Some("fn.example".to_string())),
        ("cookie".to_string(), Some("a=1".to_string())),
    ];
    let f = begin(Some("aHR0cHM6Ly9leGFtcGxlLmNvbS9wYWdl"), &request).unwrap();
    assert_eq!(f.url(), "https://example.com/page");
    assert_eq!(f.redirects(), 0);
    assert_eq!(
        f.headers(),
        &vec![
            ("cookie".to_string(), "a=1".to_string()),
            ("x-aka-function".to_string(), "html2md/1.0".to_string())
        ]
    );
}

#[test]
fn begin_reports_a_bad_header() {
    assert_eq!(begin(None, &Vec::new()).err(), Some(Failure::MissingOriginUrl));
    assert_eq!(begin(Some("aHR0cDovL2V4YW1wbGUuY29t"), &Vec::new()).err(), Some(Failure::NotHttps));
}

#[test]
fn relative_redirects_resolve_against_the_current_url() {
    assert_eq!(resolve_redirect("https://example.com/foo", "/bar"), Some("https://example.com/bar".to_string()));
    assert_eq!(
        resolve_redirect("https://example.com/a/b", "c?x=1"),
        Some("https://example.com/a/c?x=1".to_string())
    );
}

#[test]
fn absolute_redirects_replace_the_url() {
    assert_eq!(
        resolve_redirect("https://example.com/foo", "https://other.example/x"),
        Some("https://other.example/x".to_string())
    );
    assert_eq!(
        resolve_redirect("https://example.com/foo", "HTTPS://Other.Example/x"),
        Some("https://other.example/x".to_string())
    );
}

#[test]
fn redirects_away_from_https_are_refused() {
    assert_eq!(resolve_redirect("https://example.com/foo", "http://example.com/bar"), None);
    assert_eq!(resolve_redirect("https://example.com/foo", "ftp://example.com/bar"), None);
    assert_eq!(resolve_redirect("https://example.com/foo", "https://[::1"), None);
    assert_eq!(resolve_redirect("not a url", "/bar"), None);
}

#[test]
fn the_join_result_is_checked() {
    assert_eq!(redirect_target_from(None), None);
    assert_eq!(
        redirect_target_from(Some(("https".to_string(), "https://a.example/".to_string()))),
        Some("https://a.example/".to_string())
    );
    assert_eq!(redirect_target_from(Some(("http".to_string(), "http://a.example/".to_string()))), None);
    assert_eq!(redirect_target_from(Some(("https".to_string(), "http://a.example/".to_string()))), None);
}

#[test]
fn a_redirect_to_http_fails_the_fetch() {
    let mut f = fetcher("https://example.com/foo");
    assert_eq!(
        f.on_response(301, Some("http://example.com/bar".to_string())),
        Step::Failed(Failure::RedirectNotHttps)
    );
    assert_eq!(f.url(), "https://example.com/foo");
    assert_eq!(f.redirects(), 0);
}

#[test]
fn a_redirect_is_followed() {
    let mut f = fetcher("https://example.com/foo");
    assert_eq!(f.on_response(301, Some("/bar".to_string())), Step::Follow);
    assert_eq!(f.url(), "https://example.com/bar");
    assert_eq!(f.redirects(), 1);
    assert_eq!(f.headers().len(), 1);
}

#[test]
fn every_3xx_status_is_a_redirect() {
    for status in [300u16, 302, 303, 307, 308, 399] {
        let mut f = fetcher("https://example.com/");
        assert_eq!(f.on_response(status, Some("/next".to_string())), Step::Follow, "{status}");
    }
}

#[test]
fn a_redirect_without_location_fails() {
    let mut f = fetcher("https://example.com/foo");
    assert_eq!(f.on_response(302, None), Step::Failed(Failure::RedirectWithoutLocation { status: 302 }));
    assert_eq!(f.url(), "https://example.com/foo");
    assert_eq!(f.redirects(), 0);
}

#[test]
fn the_eleventh_redirect_fails() {
    let mut f = fetcher("https://example.com/0");
    for i in 1..=MAX_REDIRECTS {
        assert_eq!(f.on_response(302, Some(format!("/{i}"))), Step::Follow);
    }
    assert_eq!(f.redirects(), 10);
    assert_eq!(f.url(), "https://example.com/10");
    assert_eq!(f.on_response(302, Some("/11".to_string())), Step::Failed(Failure::TooManyRedirects));
    assert_eq!(f.url(), "https://example.com/10");
    assert_eq!(f.on_response(302, None), Step::Failed(Failure::TooManyRedirects));
}

#[test]
fn success_statuses_end_the_fetch() {
    for status in [200u16, 201, 204, 299] {
        let mut f = fetcher("https://example.com/");
        assert_eq!(f.on_response(status, None), Step::Arrived, "{status}");
        assert_eq!(f.redirects(), 0);
    }
}

#[test]
fn other_statuses_are_remote_errors() {
    for status in [100u16, 199, 400, 404, 500, 503] {
        let mut f = fetcher("https://example.com/");
        assert_eq!(
            f.on_response(status, Some("/x".to_string())),
            Step::Failed(Failure::RemoteStatus { status }),
            "{status}"
        );
    }
}

#[test]
fn failures_name_the_current_url() {
    let mut f = fetcher("https://example.com/foo");
    f.on_response(307, Some("/bar".to_string()));
    assert_eq!(f.fetch_failed(), Failure::FetchFailed { url: "https://example.com/bar".to_string() });
    assert_eq!(
        f.read_failed("connection reset".to_string()),
        Failure::ReadFailed { url: "https://example.com/bar".to_string(), detail: "connection reset".to_string() }
    );
}
