//! The rendering contract, exercised on concrete values: the empty
//! sequence, the full byte range, and the documented escape scenarios.

use byte_string::{ByteStr, ByteString};

/// The expected rendering of the 256 byte values in ascending order:
/// each byte's escape, concatenated without separators, inside `b"..."`.
fn all_bytes_expected() -> String {
    let mut s = String::new();
    s.push_str("b\"");
    s.push_str("\\x00\\x01\\x02\\x03\\x04\\x05\\x06\\x07\\x08\\t\\n\\x0b\\x0c\\r\\x0e\\x0f");
    s.push_str("\\x10\\x11\\x12\\x13\\x14\\x15\\x16\\x17\\x18\\x19\\x1a\\x1b\\x1c\\x1d\\x1e\\x1f");
    s.push_str(" !\\\"#$%&'()*+,-./");
    s.push_str("0123456789:;<=>?");
    s.push_str("@ABCDEFGHIJKLMNO");
    s.push_str("PQRSTUVWXYZ[\\\\]^_");
    s.push_str("`abcdefghijklmno");
    s.push_str("pqrstuvwxyz{|}~\\x7f");
    s.push_str("\\x80\\x81\\x82\\x83\\x84\\x85\\x86\\x87\\x88\\x89\\x8a\\x8b\\x8c\\x8d\\x8e\\x8f");
    s.push_str("\\x90\\x91\\x92\\x93\\x94\\x95\\x96\\x97\\x98\\x99\\x9a\\x9b\\x9c\\x9d\\x9e\\x9f");
    s.push_str("\\xa0\\xa1\\xa2\\xa3\\xa4\\xa5\\xa6\\xa7\\xa8\\xa9\\xaa\\xab\\xac\\xad\\xae\\xaf");
    s.push_str("\\xb0\\xb1\\xb2\\xb3\\xb4\\xb5\\xb6\\xb7\\xb8\\xb9\\xba\\xbb\\xbc\\xbd\\xbe\\xbf");
    s.push_str("\\xc0\\xc1\\xc2\\xc3\\xc4\\xc5\\xc6\\xc7\\xc8\\xc9\\xca\\xcb\\xcc\\xcd\\xce\\xcf");
    s.push_str("\\xd0\\xd1\\xd2\\xd3\\xd4\\xd5\\xd6\\xd7\\xd8\\xd9\\xda\\xdb\\xdc\\xdd\\xde\\xdf");
    s.push_str("\\xe0\\xe1\\xe2\\xe3\\xe4\\xe5\\xe6\\xe7\\xe8\\xe9\\xea\\xeb\\xec\\xed\\xee\\xef");
    s.push_str("\\xf0\\xf1\\xf2\\xf3\\xf4\\xf5\\xf6\\xf7\\xf8\\xf9\\xfa\\xfb\\xfc\\xfd\\xfe\\xff");
    s.push_str("\"");
    s
}

fn all_bytes_input() -> Vec<u8> {
    let mut v: Vec<u8> = Vec::new();
    let mut b: u16 = 0;
    while b < 256 {
        v.push(b as u8);
        b += 1;
    }
    v
}

#[test]
fn debug_bytestr_empty() {
    let bytes = [];
    let bs = ByteStr::new(&bytes);
    let result = bs.to_debug_string();
    assert_eq!(result, "b\"\"");
}

#[test]
fn debug_bytestr() {
    let bytes = all_bytes_input();
    let bs = ByteStr::new(&bytes);
    let result = bs.to_debug_string();
    assert_eq!(result, all_bytes_expected());
}

#[test]
fn debug_bytestring_empty() {
    let bytes = vec![];
    let bs = ByteString::new(bytes);
    let result = bs.to_debug_string();
    assert_eq!(result, "b\"\"");
}

#[test]
fn debug_bytestring() {
    let bytes = all_bytes_input();
    let bs = ByteString::new(bytes);
    let result = bs.to_debug_string();
    assert_eq!(result, all_bytes_expected());
}

#[test]
fn debug_escapes_quote_backslash_tab() {
    let bytes = [0x41, 0x22, 0x5C, 0x09];
    let bs = ByteStr::new(&bytes);
    assert_eq!(bs.to_debug_string(), "b\"A\\\"\\\\\\t\"");
}

#[test]
fn debug_escapes_delete_as_hex() {
    let bytes = [0x7F];
    let bs = ByteStr::new(&bytes);
    assert_eq!(bs.to_debug_string(), "b\"\\x7f\"");
}

#[test]
fn debug_printable_text() {
    let s = b"Hello, world!";
    let bs = ByteStr::new(s);
    assert_eq!(bs.to_debug_string(), "b\"Hello, world!\"");
}

#[test]
fn view_and_buffer_render_identically() {
    let bytes = all_bytes_input();
    let view = ByteStr::new(&bytes);
    let buffer = ByteString::new(bytes.clone());
    assert_eq!(view.to_debug_string(), buffer.to_debug_string());
}

#[test]
fn display_matches_debug() {
    let bytes = vec![0x00, 0x41, 0xFF];
    let bs = ByteString::new(bytes);
    assert_eq!(bs.to_display_string(), bs.to_debug_string());
    assert_eq!(bs.to_display_string(), "b\"\\x00A\\xff\"");
}

#[test]
fn render_string_direct() {
    assert_eq!(byte_string::render_string(&[0x62, 0x22]), "b\"b\\\"\"");
}
