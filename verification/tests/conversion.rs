use html_2_md::body::{header_value, is_html, markdown_reply, plan_body, BodyBuffer, BodyPlan, ConversionSettings, Headings};
use html_2_md::failure::Failure;
use html_2_md::MAX_BODY_SIZE;

#[test]
fn first_header_value_is_read_as_text() {
    assert_eq!(header_value(&Vec::new()), None);
    assert_eq!(header_value(&vec![b"text/html".to_vec(), b"other".to_vec()]), Some("text/html".to_string()));
    assert_eq!(header_value(&vec![vec![b'a', 0xff, b'b']]), Some("a\u{FFFD}b".to_string()));
    assert_eq!(header_value(&vec!["text/html; charset=é".as_bytes().to_vec()]), Some("text/html; charset=é".to_string()));
}

#[test]
fn html_is_recognised_inside_the_content_type() {
    assert!(is_html("text/html"));
    assert!(is_html("text/html; charset=utf-8"));
    assert!(!is_html("application/json"));
    assert!(!is_html("application/xhtml+xml"));
    assert!(!is_html(""));
}

#[test]
fn non_html_is_relayed_with_status_and_type() {
    assert_eq!(
        plan_body(200, Some("application/json".to_string())),
        BodyPlan::Relay { status: 200, content_type: Some("application/json".to_string()) }
    );
    assert_eq!(
        plan_body(206, Some("application/pdf".to_string())),
        BodyPlan::Relay { status: 206, content_type: Some("application/pdf".to_string()) }
    );
}

#[test]
fn a_missing_or_empty_type_is_relayed_without_one() {
    assert_eq!(plan_body(200, None), BodyPlan::Relay { status: 200, content_type: None });
    assert_eq!(plan_body(204, Some(String::new())), BodyPlan::Relay { status: 204, content_type: None });
}

#[test]
fn html_is_converted() {
    assert_eq!(plan_body(200, Some("text/html; charset=utf-8".to_string())), BodyPlan::Convert);
}

#[test]
fn settings_for_ai_readers() {
    let s = ConversionSettings::for_ai_readers();
    assert_eq!(s.headings, Headings::Atx);
    assert!(s.skip_images);
    assert_eq!(s.strip_tags, vec!["nav", "footer", "aside", "script", "style"]);
    assert!(!s.extract_metadata);
    assert!(s.autolinks);
    assert!(!s.wrap);
    assert!(s.default_title);
}

#[test]
fn chunks_are_buffered_in_order() {
    let b = BodyBuffer::new();
    assert_eq!(b.len(), 0);
    let b = b.push_chunk(b"<h1>".to_vec()).unwrap();
    let b = b.push_chunk(Vec::new()).unwrap();
    let b = b.push_chunk(b"Hi</h1>".to_vec()).unwrap();
    assert_eq!(b.len(), 11);
}

#[test]
fn the_limit_itself_is_accepted() {
    let b = BodyBuffer::new().push_chunk(vec![b'a'; MAX_BODY_SIZE - 1]).unwrap();
    let b = b.push_chunk(vec![b'b']).unwrap();
    assert_eq!(b.len(), MAX_BODY_SIZE);
    assert_eq!(b.push_chunk(Vec::new()).unwrap().len(), MAX_BODY_SIZE);
}

#[test]
fn one_byte_past_the_limit_is_refused() {
    let b = BodyBuffer::new().push_chunk(vec![b'a'; MAX_BODY_SIZE]).unwrap();
    assert_eq!(b.push_chunk(vec![b'b']).err(), Some(Failure::BodyTooLarge));
    assert_eq!(BodyBuffer::new().push_chunk(vec![0; MAX_BODY_SIZE + 1]).err(), Some(Failure::BodyTooLarge));
}

#[test]
fn an_empty_body_is_refused() {
    let settings = ConversionSettings::for_ai_readers();
    assert_eq!(BodyBuffer::new().finish(&settings), Err(Failure::EmptyBody));
}

#[test]
fn html_becomes_markdown() {
    let settings = ConversionSettings::for_ai_readers();
    let html = b"<html><head><title>T</title></head><body><nav>Menu</nav><h1>Hello</h1><p>Some <b>text</b>.</p><footer>Foot</footer><script>var x;</script></body></html>";
    let reply = BodyBuffer::new().push_chunk(html.to_vec()).unwrap().finish(&settings).unwrap();
    assert_eq!(reply.status, 200);
    assert_eq!(reply.content_type, "text/markdown; charset=utf-8");
    assert!(reply.body.contains("# Hello"), "{}", reply.body);
    assert!(reply.body.contains("**text**"), "{}", reply.body);
    assert!(!reply.body.contains("Menu"), "{}", reply.body);
    assert!(!reply.body.contains("var x"), "{}", reply.body);
}

#[test]
fn images_are_left_out() {
    let settings = ConversionSettings::for_ai_readers();
    let html = b"<p>Before</p><img src=\"https://example.com/a.png\" alt=\"pic\"><p>After</p>";
    let reply = BodyBuffer::new().push_chunk(html.to_vec()).unwrap().finish(&settings).unwrap();
    assert!(!reply.body.contains("a.png"), "{}", reply.body);
    assert!(reply.body.contains("Before"), "{}", reply.body);
}

#[test]
fn invalid_utf8_is_replaced_before_conversion() {
    let settings = ConversionSettings::for_ai_readers();
    let reply = BodyBuffer::new().push_chunk(b"<p>caf\xe9 time</p>".to_vec()).unwrap().finish(&settings).unwrap();
    assert!(reply.body.contains("caf\u{FFFD} time"), "{}", reply.body);
}

#[test]
fn the_converter_refusal_is_reported() {
    let settings = ConversionSettings::for_ai_readers();
    let result = BodyBuffer::new().push_chunk(b"%PDF-1.7 binary".to_vec()).unwrap().finish(&settings);
    assert_eq!(result, Err(Failure::ConversionFailed));
    assert_eq!(markdown_reply(None), Err(Failure::ConversionFailed));
}

#[test]
fn absent_content_is_empty_markdown() {
    let reply = markdown_reply(Some(None)).unwrap();
    assert_eq!(reply.status, 200);
    assert_eq!(reply.body, "");
    let reply = markdown_reply(Some(Some("# x".to_string()))).unwrap();
    assert_eq!(reply.body, "# x");
}
