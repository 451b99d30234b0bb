//! The scratch text arena and the NUL-terminated string type.

use imhex_ui::string::{ImString, UiBuffer};

#[test]
fn test_imstring_constructors() {
    let s = ImString::new(String::from("test"));
    assert_eq!(s.as_bytes_with_nul(), b"test\0".to_vec());

    let s = ImString::with_capacity(100);
    assert_eq!(s.as_bytes_with_nul(), b"\0".to_vec());
}

#[test]
fn test_imstring_operations() {
    let mut s = ImString::new(String::from("test"));
    s.clear();
    assert_eq!(s.as_bytes_with_nul(), b"\0".to_vec());
    s.push('z');
    assert_eq!(s.as_bytes_with_nul(), b"z\0".to_vec());
    s.push('ä');
    assert_eq!(s.as_bytes_with_nul(), b"z\xc3\xa4\0".to_vec());
    s.clear();
    s.push_str("imgui-rs");
    assert_eq!(s.as_bytes_with_nul(), b"imgui-rs\0".to_vec());
    s.push_str("öä");
    assert_eq!(s.as_bytes_with_nul(), b"imgui-rs\xc3\xb6\xc3\xa4\0".to_vec());
}

#[test]
fn test_imstring_fmt_write() {
    let mut s = ImString::default();
    s.push_str(&format!("format {:02x}", 0x42));
    assert_eq!(s.as_bytes_with_nul(), b"format 42\0".to_vec());
}

#[test]
fn test_imstring_interior_nul() {
    let s = ImString::new(String::from("test\0ohno"));
    assert_eq!(s.as_bytes_with_nul(), b"test\0".to_vec());
    assert_eq!(s.to_str(), "test");
    assert!(!s.is_empty());

    let s = ImString::new(String::from("\0ohno"));
    assert_eq!(s.to_str(), "");
    assert!(s.is_empty());
}

#[test]
fn imstring_push_nul_char_is_dropped() {
    let mut s = ImString::new(String::from("ab"));
    s.push('\0');
    assert_eq!(s.as_bytes_with_nul(), b"ab\0".to_vec());
    s.push('c');
    assert_eq!(s.as_bytes_with_nul(), b"abc\0".to_vec());
}

#[test]
fn arena_round_trip_exact() {
    let mut buf = UiBuffer::new(1024);
    let start = buf.push("hello");
    assert_eq!(start, 0);
    // The record reads back as exactly the text plus one NUL.
    assert_eq!(buf.read_record(start), b"hello\0".to_vec());
    // Reading is idempotent before the next refresh.
    assert_eq!(buf.read_record(start), b"hello\0".to_vec());
}

#[test]
fn arena_interior_nul_truncates() {
    let mut buf = UiBuffer::new(1024);
    let start = buf.push("he\0llo");
    // C-string semantics: the readable portion stops at the first NUL.
    assert_eq!(buf.read_record(start), b"he\0".to_vec());
}

#[test]
fn arena_two_records_with_one_refresh() {
    let mut buf = UiBuffer::new(1024);
    let (s0, s1) = buf.scratch_txt_two("label", "hint");
    assert_eq!(s0, 0);
    assert_eq!(s1, 6);
    assert_eq!(buf.read_record(s0), b"label\0".to_vec());
    assert_eq!(buf.read_record(s1), b"hint\0".to_vec());
}

#[test]
fn arena_refresh_clears_only_over_watermark() {
    let mut buf = UiBuffer::new(8);
    let s0 = buf.scratch_txt("abc");
    assert_eq!(s0, 0);
    // 4 bytes used: under the watermark, so the next push appends.
    let s1 = buf.scratch_txt("de");
    assert_eq!(s1, 4);
    assert_eq!(buf.read_record(s0), b"abc\0".to_vec());
    // 7 bytes used, still under; one more push keeps appending.
    let s2 = buf.scratch_txt("x");
    assert_eq!(s2, 7);
    // Now 9 bytes are used, over the watermark of 8: the next batch
    // starts from a cleared arena.
    let s3 = buf.scratch_txt("fresh");
    assert_eq!(s3, 0);
    assert_eq!(buf.read_record(s3), b"fresh\0".to_vec());
}

#[test]
fn arena_optional_text() {
    let mut buf = UiBuffer::new(1024);
    assert_eq!(buf.scratch_txt_opt(None), None);
    let start = buf.scratch_txt_opt(Some("opt")).unwrap();
    assert_eq!(buf.read_record(start), b"opt\0".to_vec());
    let (s0, s1) = buf.scratch_txt_with_opt("label", None);
    assert_eq!(s1, None);
    assert_eq!(buf.read_record(s0), b"label\0".to_vec());
    let (s0, s1) = buf.scratch_txt_with_opt("label", Some("overlay"));
    assert_eq!(buf.read_record(s0), b"label\0".to_vec());
    assert_eq!(buf.read_record(s1.unwrap()), b"overlay\0".to_vec());
}
