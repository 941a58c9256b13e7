use serial_ctrl::framing::{decode_ascii_frames, split_lines, utf8_text};

#[test]
fn split_keeps_empty_pieces() {
    let pieces = split_lines(b"ab\ncd\n\ne");
    assert_eq!(pieces, vec![b"ab".to_vec(), b"cd".to_vec(), vec![], b"e".to_vec()]);
}

#[test]
fn split_of_empty_buffer_is_one_empty_piece() {
    assert_eq!(split_lines(b""), vec![Vec::<u8>::new()]);
    assert_eq!(split_lines(b"\n"), vec![Vec::<u8>::new(), Vec::<u8>::new()]);
}

#[test]
fn split_matches_std_split() {
    let buf: &[u8] = b"\nhello\n\nworld\nx\n";
    let expected: Vec<Vec<u8>> = buf.split(|b| *b == 0x0a).map(|p| p.to_vec()).collect();
    assert_eq!(split_lines(buf), expected);
}

#[test]
fn joining_the_pieces_gives_the_buffer_back() {
    let buf: &[u8] = b"a\n\nbc\n";
    assert_eq!(split_lines(buf).join(&0x0a), buf.to_vec());
}

#[test]
fn ascii_frames_skip_empty_lines_and_keep_indices() {
    let r = decode_ascii_frames(b"hello\n\nworld\n");
    assert_eq!(r.malformed, None);
    assert_eq!(r.frames.len(), 2);
    assert_eq!(r.frames[0].index, 0);
    assert_eq!(r.frames[0].text, "hello");
    assert_eq!(r.frames[1].index, 2);
    assert_eq!(r.frames[1].text, "world");
}

#[test]
fn ascii_frames_stop_at_the_first_malformed_line() {
    let r = decode_ascii_frames(b"ok\n\xff\xfe\nlater");
    assert_eq!(r.frames.len(), 1);
    assert_eq!(r.frames[0].text, "ok");
    assert_eq!(r.malformed, Some(1));
}

#[test]
fn ascii_frames_decode_multibyte_text() {
    let r = decode_ascii_frames("grüß\n€".as_bytes());
    assert_eq!(r.malformed, None);
    assert_eq!(r.frames[0].text, "grüß");
    assert_eq!(r.frames[1].text, "€");
    assert_eq!(r.frames[1].index, 1);
}

#[test]
fn utf8_text_rejects_invalid_and_surrogate_bytes() {
    assert_eq!(utf8_text(b"abc"), Some("abc".to_string()));
    assert_eq!(utf8_text(&[0xed, 0xa0, 0x80]), None);
    assert_eq!(utf8_text(&[0xc0, 0x80]), None);
    assert_eq!(utf8_text(b""), Some(String::new()));
}
