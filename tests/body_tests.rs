use debug_proxy::body::{
    analyze_with_essence, content_type, header_value_text, is_binary_content, is_binary_with_essence,
    is_textual_essence, looks_binary,
};
use debug_proxy::analyze_body;

fn ct(v: &str) -> Vec<(String, Vec<u8>)> {
    vec![("content-type".to_string(), v.as_bytes().to_vec())]
}

#[test]
fn binary_detection_scenario() {
    let body = [0x89, 0x50, 0x4E, 0x47, 0x00, 0x0D, 0x0A, 0x1A];
    let r = analyze_body(&body, &vec![], 1024);
    assert!(r.is_binary);
    assert_eq!(r.preview, "<binary data: 8 bytes>");
    assert_eq!(r.size, 8);
    assert!(!r.truncated);
    assert_eq!(r.content_type, None);
}

#[test]
fn nul_byte_makes_binary_without_textual_type() {
    assert!(looks_binary(b"abc\0def"));
    assert!(is_binary_content(b"abc\0def", None));
    assert!(is_binary_content(b"abc\0def", Some("application/octet-stream")));
    assert!(is_binary_content(b"abc\0def", Some("not a media type")));
}

#[test]
fn textual_media_types_decide_for_text() {
    for t in [
        "text/plain",
        "text/html; charset=utf-8",
        "Application/JSON",
        "application/javascript",
        "application/xml",
        "application/atom+xml",
        "application/ld+json",
    ] {
        assert!(!is_binary_content(b"\0\0\0", Some(t)), "{}", t);
    }
    assert!(is_binary_content(b"\0\0\0", Some("image/png")));
    assert!(is_textual_essence("application/vnd.api+json"));
    assert!(!is_textual_essence("application/jsonx"));
    assert!(!is_textual_essence("image/svg+xml"));
}

#[test]
fn control_byte_ratio_threshold() {
    // 3 of 10 bytes are control bytes: 30% is not more than 30%.
    assert!(!looks_binary(b"\x01\x02\x03abcdefg"));
    // 4 of 10.
    assert!(looks_binary(b"\x01\x02\x03\x04abcdef"));
    // Tab, line feed and carriage return do not count.
    assert!(!looks_binary(b"\t\n\r\t\n\r\t\n\r\t"));
    // 301 of 1000 is more than 30%.
    let mut v = vec![1u8; 301];
    v.extend(std::iter::repeat(b'a').take(699));
    assert!(looks_binary(&v));
    assert!(!looks_binary(b""));
    assert!(!is_binary_with_essence(b"", None));
}

#[test]
fn valid_text_under_limit_is_kept_whole() {
    let text = "héllo wörld";
    let r = analyze_body(text.as_bytes(), &vec![], 100);
    assert!(!r.is_binary);
    assert!(!r.truncated);
    assert_eq!(r.preview, text);
}

#[test]
fn long_text_is_truncated_to_the_limit() {
    let r = analyze_body(b"abcdefghij", &vec![], 4);
    assert!(r.truncated);
    assert_eq!(r.preview, "abcd");
    let r = analyze_body(b"abcd", &vec![], 4);
    assert!(!r.truncated);
    assert_eq!(r.preview, "abcd");
}

#[test]
fn invalid_utf8_prefix_is_described() {
    // "é" is two bytes; cutting after the first leaves no valid UTF-8.
    let r = analyze_body("aé".as_bytes(), &vec![], 2);
    assert!(r.truncated);
    assert_eq!(r.preview, "<invalid UTF-8: 3 bytes>");
    let r = analyze_body(&[0xff, 0xfe, b'a', b'b', b'c'], &vec![], 100);
    assert!(!r.is_binary);
    assert_eq!(r.preview, "<invalid UTF-8: 5 bytes>");
}

#[test]
fn empty_body_is_text_with_empty_preview() {
    let r = analyze_body(b"", &ct("image/png"), 10);
    assert!(!r.is_binary);
    assert_eq!(r.preview, "");
    assert_eq!(r.size, 0);
    assert_eq!(r.content_type.as_deref(), Some("image/png"));
}

#[test]
fn content_type_is_first_header_verbatim() {
    let h = vec![
        ("accept".to_string(), b"*/*".to_vec()),
        ("content-type".to_string(), b"Text/Plain; charset=UTF-8".to_vec()),
        ("content-type".to_string(), b"image/png".to_vec()),
    ];
    assert_eq!(content_type(&h).as_deref(), Some("Text/Plain; charset=UTF-8"));
    let h = vec![("content-type".to_string(), vec![0xff])];
    assert_eq!(content_type(&h), None);
    assert_eq!(content_type(&vec![]), None);
    let r = analyze_body(b"\0\0", &ct("TEXT/PLAIN"), 10);
    assert!(!r.is_binary);
}

#[test]
fn header_values_as_text() {
    assert_eq!(header_value_text(b"text/plain"), "text/plain");
    assert_eq!(header_value_text(b"a\tb"), "a\tb");
    assert_eq!(header_value_text(&[0x80]), "<invalid>");
    assert_eq!(header_value_text(b"a\nb"), "<invalid>");
}

#[test]
fn analysis_given_an_essence() {
    let r = analyze_with_essence(b"\0\0", Some("whatever".to_string()), Some("text/plain"), 1);
    assert!(!r.is_binary);
    assert!(r.truncated);
    assert_eq!(r.preview, "\0");
    assert_eq!(r.content_type.as_deref(), Some("whatever"));
    let r = analyze_with_essence(b"\0\0", None, Some("image/png"), 1);
    assert!(r.is_binary);
    assert_eq!(r.preview, "<binary data: 2 bytes>");
}
