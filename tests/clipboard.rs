use imgui_raylib::clipboard::clipboard_bytes;

#[test]
fn plain_text_is_kept() {
    assert_eq!(clipboard_bytes("hello, world"), b"hello, world".to_vec());
    assert_eq!(clipboard_bytes(""), Vec::<u8>::new());
    assert_eq!(clipboard_bytes("h\u{e9}llo"), "h\u{e9}llo".as_bytes().to_vec());
}

#[test]
fn single_nul_is_removed() {
    assert_eq!(clipboard_bytes("ab\0cd"), b"abcd".to_vec());
}

#[test]
fn every_nul_is_removed() {
    assert_eq!(clipboard_bytes("\0a\0\0b\0"), b"ab".to_vec());
    assert_eq!(clipboard_bytes("\0"), Vec::<u8>::new());
}
