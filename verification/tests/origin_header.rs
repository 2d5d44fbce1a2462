use html_2_md::failure::Failure;
use html_2_md::origin::{decode_origin_url, origin_url, pad_base64, validate_origin_url, PAD_BYTE};

#[test]
fn padding_is_added_up_to_a_multiple_of_four() {
    assert_eq!(pad_base64(b"L2h0bWw"), b"L2h0bWw=".to_vec());
    assert_eq!(pad_base64(b"aHR0cHM6Ly9leGFtcGxlLmNvbQ"), b"aHR0cHM6Ly9leGFtcGxlLmNvbQ==".to_vec());
    assert_eq!(pad_base64(b"abcde"), b"abcde===".to_vec());
    assert_eq!(PAD_BYTE, b'=');
}

#[test]
fn complete_input_is_left_as_is() {
    assert_eq!(pad_base64(b""), Vec::<u8>::new());
    assert_eq!(pad_base64(b"__4="), b"__4=".to_vec());
    assert_eq!(pad_base64(b"aHR0"), b"aHR0".to_vec());
}

#[test]
fn padding_twice_changes_nothing() {
    let once = pad_base64(b"aHR0cHM6Ly9leGFtcGxlLmNvbQ");
    assert_eq!(pad_base64(&once), once);
}

#[test]
fn decodes_padded_and_unpadded_values() {
    assert_eq!(decode_origin_url("L2h0bWw=").unwrap(), "/html");
    assert_eq!(decode_origin_url("L2h0bWw").unwrap(), "/html");
    assert_eq!(
        decode_origin_url("aHR0cHM6Ly93d3cuZXhhbXBsZS5jb20vcHJvZHVjdHM_aWQ9MTIz").unwrap(),
        "https://www.example.com/products?id=123"
    );
}

#[test]
fn refuses_text_outside_the_alphabet() {
    assert_eq!(decode_origin_url("not-valid!!!"), Err(Failure::InvalidBase64));
    assert_eq!(decode_origin_url("a+b/"), Err(Failure::InvalidBase64));
}

#[test]
fn refuses_a_single_leftover_character() {
    assert_eq!(decode_origin_url("aHR0c"), Err(Failure::InvalidBase64));
}

#[test]
fn refuses_bytes_that_are_not_utf8() {
    assert_eq!(decode_origin_url("__4="), Err(Failure::InvalidUtf8));
    assert_eq!(decode_origin_url("__4"), Err(Failure::InvalidUtf8));
}

#[test]
fn accepts_https_urls_in_their_normal_form() {
    assert_eq!(validate_origin_url("https://example.com").unwrap(), "https://example.com/");
    assert_eq!(validate_origin_url("HTTPS://Example.COM/a b").unwrap(), "https://example.com/a%20b");
}

#[test]
fn refuses_other_schemes() {
    assert_eq!(validate_origin_url("http://example.com"), Err(Failure::NotHttps));
    assert_eq!(validate_origin_url("ftp://example.com/x"), Err(Failure::NotHttps));
}

#[test]
fn refuses_relative_urls() {
    assert_eq!(validate_origin_url("/html"), Err(Failure::InvalidUrl));
    assert_eq!(validate_origin_url(""), Err(Failure::InvalidUrl));
}

#[test]
fn reads_the_whole_header() {
    assert_eq!(origin_url(Some("aHR0cHM6Ly9leGFtcGxlLmNvbS9wYWdl")).unwrap(), "https://example.com/page");
    assert_eq!(origin_url(Some("aHR0cHM6Ly9leGFtcGxlLmNvbQ")).unwrap(), "https://example.com/");
}

#[test]
fn missing_header_is_reported_first() {
    assert_eq!(origin_url(None), Err(Failure::MissingOriginUrl));
}

#[test]
fn each_stage_reports_its_own_failure() {
    assert_eq!(origin_url(Some("not-valid!!!")), Err(Failure::InvalidBase64));
    assert_eq!(origin_url(Some("__4=")), Err(Failure::InvalidUtf8));
    assert_eq!(origin_url(Some("L2h0bWw")), Err(Failure::InvalidUrl));
    assert_eq!(origin_url(Some("aHR0cDovL2V4YW1wbGUuY29t")), Err(Failure::NotHttps));
}

#[test]
fn every_accepted_url_starts_with_https() {
    for header in ["aHR0cHM6Ly9leGFtcGxlLmNvbS9wYWdl", "aHR0cHM6Ly9leGFtcGxlLmNvbQ==", "SFRUUFM6Ly9YLk9SRw"] {
        let url = origin_url(Some(header)).unwrap();
        assert!(url.starts_with("https:"), "{url}");
    }
}
