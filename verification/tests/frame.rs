use scene_bridge::frame::Frame;

#[test]
fn text_frame_carries_its_text() {
    assert_eq!(Frame::Text("hello".to_string()).text(), Some("hello"));
    assert_eq!(Frame::Text(String::new()).text(), Some(""));
}

#[test]
fn binary_frame_carries_what_its_bytes_encode() {
    assert_eq!(Frame::Binary(b"{\"action\":\"a\"}".to_vec()).text(), Some("{\"action\":\"a\"}"));
    assert_eq!(Frame::Binary(Vec::new()).text(), Some(""));
    assert_eq!(
        Frame::Binary(vec![0x67, 0x72, 0xc3, 0xbc, 0xc3, 0x9f, 0x65, 0x20, 0xe2, 0x82, 0xac]).text(),
        Some("gr\u{fc}\u{df}e \u{20ac}")
    );
    assert_eq!(Frame::Binary(vec![0xf0, 0x9f, 0x8e, 0xac]).text(), Some("\u{1f3ac}"));
}

#[test]
fn binary_frame_that_is_no_utf8_carries_none() {
    for bytes in [
        vec![0xff],
        vec![0x80],
        vec![0xc3],
        vec![0x7b, 0xc3, 0x28, 0x7d],
        vec![0xc0, 0xaf],
        vec![0xed, 0xa0, 0x80],
        vec![0xf4, 0x90, 0x80, 0x80],
        vec![0xe2, 0x82],
    ] {
        assert_eq!(Frame::Binary(bytes.clone()).text(), None, "{:?}", bytes);
    }
}

#[test]
fn control_frame_carries_none() {
    assert_eq!(Frame::Control.text(), None);
}
