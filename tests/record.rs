use tc_events::record::{decode, decode_frames, strip_padding};

#[test]
fn decode_strips_trailing_padding() {
    assert_eq!(decode(b"hello\0\0\0"), Some("hello".to_string()));
}

#[test]
fn decode_drops_non_text() {
    assert_eq!(decode(&[0xff, 0xfe]), None);
    assert_eq!(decode(&[b'o', b'k', 0xc3]), None);
}

#[test]
fn decode_keeps_leading_and_inner_nul() {
    assert_eq!(decode(b"\0a\0b\0\0"), Some("\0a\0b".to_string()));
}

#[test]
fn decode_empty_and_all_padding() {
    assert_eq!(decode(b""), Some(String::new()));
    assert_eq!(decode(&[0u8; 16]), Some(String::new()));
}

#[test]
fn decode_multibyte_text() {
    assert_eq!(decode("héllo\0".as_bytes()), Some("héllo".to_string()));
}

#[test]
fn strip_padding_twice_is_strip_once() {
    for s in ["", "\0", "abc", "abc\0\0", "\0abc\0", "a\0b"] {
        let once = strip_padding(s);
        let twice = strip_padding(&once);
        assert_eq!(once, twice);
    }
    assert_eq!(strip_padding("abc\0\0"), "abc");
}

#[test]
fn decode_frames_keeps_order_and_drops_non_text() {
    let frames = vec![
        b"r1\0".to_vec(),
        b"r2".to_vec(),
        vec![0xff, 0x00],
        b"r3\0\0".to_vec(),
    ];
    assert_eq!(
        decode_frames(&frames),
        vec!["r1".to_string(), "r2".to_string(), "r3".to_string()]
    );
}

#[test]
fn decode_frames_all_non_text_yields_nothing() {
    let frames = vec![vec![0xff], vec![0xfe, 0xfe]];
    assert!(decode_frames(&frames).is_empty());
    assert!(decode_frames(&Vec::new()).is_empty());
}
