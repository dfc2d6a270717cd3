use winapi_mon::cstr::{c_string, NulError};
use winapi_mon::wide::to_wide_nul;

#[test]
fn wide_ascii_module_name() {
    assert_eq!(
        to_wide_nul("kernel32"),
        vec![0x6b, 0x65, 0x72, 0x6e, 0x65, 0x6c, 0x33, 0x32, 0]
    );
}

#[test]
fn wide_empty_is_only_terminator() {
    assert_eq!(to_wide_nul(""), vec![0]);
}

#[test]
fn wide_basic_plane_char_is_one_unit() {
    assert_eq!(to_wide_nul("é中"), vec![0x00e9, 0x4e2d, 0]);
}

#[test]
fn wide_astral_char_is_surrogate_pair() {
    assert_eq!(to_wide_nul("a😀"), vec![0x61, 0xd83d, 0xde00, 0]);
    assert_eq!(to_wide_nul("\u{10ffff}"), vec![0xdbff, 0xdfff, 0]);
    assert_eq!(to_wide_nul("\u{10000}"), vec![0xd800, 0xdc00, 0]);
}

#[test]
fn wide_matches_std_encoding() {
    for s in ["USER32", "kernel32.dll", "Grüße 😀 ж", ""] {
        let mut expected: Vec<u16> = s.encode_utf16().collect();
        expected.push(0);
        assert_eq!(to_wide_nul(s), expected);
    }
}

#[test]
fn wide_single_terminator_without_nul_chars() {
    let w = to_wide_nul("LoadLibraryW😀");
    assert_eq!(w.iter().filter(|u| **u == 0).count(), 1);
    assert_eq!(*w.last().unwrap(), 0);
}

#[test]
fn c_string_appends_terminator() {
    assert_eq!(c_string("Sleep"), Ok(vec![b'S', b'l', b'e', b'e', b'p', 0]));
}

#[test]
fn c_string_of_empty_text() {
    assert_eq!(c_string(""), Ok(vec![0]));
}

#[test]
fn c_string_keeps_utf8_bytes() {
    assert_eq!(c_string("é"), Ok(vec![0xc3, 0xa9, 0]));
}

#[test]
fn c_string_refuses_interior_nul() {
    assert_eq!(c_string("Re\0adFile"), Err(NulError { position: 2 }));
    assert_eq!(c_string("\0"), Err(NulError { position: 0 }));
    assert_eq!(c_string("ab\0c\0"), Err(NulError { position: 2 }));
}

#[test]
fn c_string_read_back_up_to_nul_gives_text() {
    let bytes = c_string("CreateFileA").unwrap();
    let end = bytes.iter().position(|b| *b == 0).unwrap();
    assert_eq!(end, bytes.len() - 1);
    assert_eq!(&bytes[..end], "CreateFileA".as_bytes());
}
