use zoekt_mcp::decode::{decode_b64, decode_with};

#[test]
fn decode_returns_the_encoded_text() {
    assert_eq!(decode_b64("aGVsbG8="), "hello");
    assert_eq!(decode_b64("Zm4gbWFpbigpIHt9Cg=="), "fn main() {}\n");
    assert_eq!(decode_b64("4oCUw6k="), "—é");
}

#[test]
fn decode_agrees_with_the_encoder() {
    let texts = ["a", "ab", "abc", "line one\nline two\n", "tabs\tand  spaces ", "ünïcödé — ok"];
    for t in texts {
        let payload = base64::Engine::encode(&base64::engine::general_purpose::STANDARD, t);
        assert_eq!(decode_b64(&payload), t);
    }
}

#[test]
fn decode_of_empty_payload_is_empty() {
    assert_eq!(decode_b64(""), "");
}

#[test]
fn decode_leaves_plain_text_unchanged() {
    assert_eq!(decode_b64("fn main() {}"), "fn main() {}");
    assert_eq!(decode_b64("not base64!"), "not base64!");
    assert_eq!(decode_b64("aGVsbG8"), "aGVsbG8");
    assert_eq!(decode_b64("a"), "a");
}

#[test]
fn decode_leaves_payload_unchanged_where_bytes_are_not_utf8() {
    assert_eq!(decode_b64("/w=="), "/w==");
    assert_eq!(decode_b64("gICA"), "gICA");
}

#[test]
fn decode_with_chooses_by_the_decoded_bytes() {
    assert_eq!(decode_with("payload", Some(vec![104, 105])), "hi");
    assert_eq!(decode_with("payload", Some(vec![])), "");
    assert_eq!(decode_with("payload", Some(vec![0xff, 0xfe])), "payload");
    assert_eq!(decode_with("payload", Some(vec![0xe2, 0x80])), "payload");
    assert_eq!(decode_with("payload", None), "payload");
}
