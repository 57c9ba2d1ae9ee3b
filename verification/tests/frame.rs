use anthropic_stream::choice::DecodeError;
use anthropic_stream::frame::{decode_chunk, is_whitespace, split_payloads};

#[test]
fn payloads_of_data_lines() {
    let text = "event: ping\ndata: {\"a\":1}\n\ndata: second\n";
    assert_eq!(split_payloads(text), vec!["{\"a\":1}".to_string(), "second".to_string()]);
}

#[test]
fn carriage_return_before_line_feed_is_dropped() {
    assert_eq!(split_payloads("data: one\r\ndata: two\r\n"), vec!["one".to_string(), "two".to_string()]);
}

#[test]
fn carriage_return_at_the_very_end_is_kept() {
    assert_eq!(split_payloads("data: one\r"), vec!["one\r".to_string()]);
}

#[test]
fn carriage_return_inside_a_line_is_kept() {
    assert_eq!(split_payloads("data: a\rb\n"), vec!["a\rb".to_string()]);
}

#[test]
fn last_line_needs_no_line_feed() {
    assert_eq!(split_payloads("data: tail"), vec!["tail".to_string()]);
}

#[test]
fn blank_payloads_are_dropped() {
    assert!(split_payloads("data: \ndata:  \t \ndata: \u{a0}\u{3000}\n").is_empty());
}

#[test]
fn payload_keeps_its_own_spaces() {
    assert_eq!(split_payloads("data:  x \n"), vec![" x ".to_string()]);
}

#[test]
fn prefix_must_match_exactly() {
    assert!(split_payloads("data:x\nDATA: x\n data: x\ndata\nid: 1\n: comment\n").is_empty());
}

#[test]
fn empty_text_has_no_payloads() {
    assert!(split_payloads("").is_empty());
    assert!(split_payloads("\n\n\n").is_empty());
}

#[test]
fn payload_may_hold_any_characters() {
    assert_eq!(split_payloads("data: héllo ✓\n"), vec!["héllo ✓".to_string()]);
}

#[test]
fn chunk_is_decoded_as_utf8() {
    assert_eq!(decode_chunk("data: é\n".as_bytes()).unwrap(), "data: é\n");
    assert_eq!(decode_chunk(b"").unwrap(), "");
}

#[test]
fn chunk_with_bad_bytes_is_refused() {
    assert!(matches!(decode_chunk(&[b'a', 0x80]), Err(DecodeError::EncodingInvalid(_))));
    assert!(matches!(decode_chunk(&[0xe2, 0x82]), Err(DecodeError::EncodingInvalid(_))));
    assert!(matches!(decode_chunk(&[0xed, 0xa0, 0x80]), Err(DecodeError::EncodingInvalid(_))));
    assert!(matches!(decode_chunk(&[0xc0, 0x80]), Err(DecodeError::EncodingInvalid(_))));
}

#[test]
fn whitespace_is_what_the_standard_library_says() {
    let mut n: u32 = 0;
    while n <= 0x10ffff {
        if let Some(c) = char::from_u32(n) {
            assert_eq!(is_whitespace(c), c.is_whitespace(), "U+{:04X}", n);
        }
        n += 1;
    }
}

#[test]
fn lines_are_what_the_standard_library_says() {
    for text in ["", "\n", "a", "a\n", "a\r\n", "a\r", "\r\n\r\n", "a\n\nb", "a\r\nb\r", "\ra\n", "a\n\r"] {
        let framed: String = text.lines().map(|line| format!("data: {}\n", line)).collect();
        let prefixed: String = text
            .split_inclusive('\n')
            .map(|line| format!("data: {}", line))
            .collect();
        let expected: Vec<String> = prefixed
            .lines()
            .filter_map(|line| line.strip_prefix("data: "))
            .filter(|data| !data.trim().is_empty())
            .map(|data| data.to_string())
            .collect();
        assert_eq!(split_payloads(&prefixed), expected, "{:?}", text);
        let again: Vec<String> = framed
            .lines()
            .filter_map(|line| line.strip_prefix("data: "))
            .filter(|data| !data.trim().is_empty())
            .map(|data| data.to_string())
            .collect();
        assert_eq!(split_payloads(&framed), again, "{:?}", text);
    }
}
