//! Tests for the UTF-8 and UTF-16 transcoding helpers.

use triangle_from_scratch::min_alloc_lossy_into_string;
use triangle_from_scratch::str_from_null_terminated_byte_slice;
use triangle_from_scratch::util::break_off_code_point;
use triangle_from_scratch::util::count_utf16_code_units;
use triangle_from_scratch::util::decimal_string;
use triangle_from_scratch::util::utf16;
use triangle_from_scratch::util::utf16_null;
use triangle_from_scratch::win32::message_from_utf16;
use triangle_from_scratch::win32::split_extension_list;
use triangle_from_scratch::win32::wide_null;

#[test]
fn test_utf16() {
    let hello16 = utf16("hello");
    assert_eq!(hello16, "hello".encode_utf16().collect::<Vec<u16>>());

    let words8 = "$¢ह€한𐍈, 漢字, ひらがな / 平仮名, カタカナ / 片仮名";
    let words16 = utf16(words8);
    assert_eq!(words16, words8.encode_utf16().collect::<Vec<u16>>());
}

#[test]
fn test_utf16_null() {
    let hello = utf16_null("hello");
    assert_eq!(hello, "hello\0".encode_utf16().collect::<Vec<u16>>());
}

#[test]
fn test_break_off_code_point() {
    // code points of 1, 2, 3, and 4 byte size
    for ch in &['$', '¢', 'ह', '€', '한', '𐍈'] {
        let s = format!("{}", ch);
        assert_eq!(break_off_code_point(s.as_bytes()), Some((*ch as u32, &[][..])));
    }

    // empty string works properly
    assert!(break_off_code_point("".as_bytes()).is_none());
}

#[test]
fn test_count_utf16_code_units() {
    let s = "hello from the unit test";
    let normal_style: usize = s.chars().map(|ch| ch.len_utf16()).sum();
    assert_eq!(normal_style, count_utf16_code_units(s));

    let s = "$¢ह€한𐍈, 漢字, ひらがな / 平仮名, カタカナ / 片仮名";
    let normal_style: usize = s.chars().map(|ch| ch.len_utf16()).sum();
    assert_eq!(normal_style, count_utf16_code_units(s));
}

#[test]
fn break_off_replaces_bad_head_bytes() {
    // a continuation byte with nothing before it
    assert_eq!(break_off_code_point(&[0x80, 0x41]), Some((0xFFFD, &[0x41u8][..])));
    // a two-byte head with nothing after it
    assert_eq!(break_off_code_point(&[0xC3]), Some((0xFFFD, &[][..])));
}

#[test]
fn wide_null_terminates() {
    assert_eq!(wide_null("hi"), vec![104u16, 105, 0]);
    assert_eq!(wide_null(""), vec![0u16]);
}

#[test]
fn lossy_string_keeps_valid_bytes() {
    assert_eq!(min_alloc_lossy_into_string(b"hello".to_vec()), "hello");
    assert_eq!(min_alloc_lossy_into_string(vec![]), "");
}

#[test]
fn lossy_string_replaces_invalid_bytes() {
    assert_eq!(min_alloc_lossy_into_string(vec![0xFF, 0x68, 0x69]), "\u{FFFD}hi");
}

#[test]
fn str_stops_at_first_nul() {
    assert_eq!(str_from_null_terminated_byte_slice(b"abc\0def"), Ok("abc"));
    assert_eq!(str_from_null_terminated_byte_slice(b"abc"), Ok("abc"));
    assert_eq!(str_from_null_terminated_byte_slice(b"\0abc"), Ok(""));
    assert!(str_from_null_terminated_byte_slice(&[0xC3, 0x28, 0]).is_err());
    // invalid bytes after the nul do not matter
    assert_eq!(str_from_null_terminated_byte_slice(&[0x41, 0, 0xFF]), Ok("A"));
}

#[test]
fn message_text_flattens_line_breaks() {
    let units: Vec<u16> = "All good.\r\n".encode_utf16().collect();
    assert_eq!(message_from_utf16(&units), "All good.  ");
}

#[test]
fn message_text_decodes_surrogate_pairs() {
    let units: Vec<u16> = "𐍈 ok".encode_utf16().collect();
    assert_eq!(message_from_utf16(&units), "𐍈 ok");
}

#[test]
fn message_text_replaces_lone_surrogates() {
    // a high surrogate with no low surrogate after it, then a lone low one
    let units = [0xD800u16, 0x41, 0xDC00, 0x42];
    assert_eq!(message_from_utf16(&units), "\u{FFFD}A\u{FFFD}B");
}

#[test]
fn extension_list_splits_on_spaces() {
    let split = split_extension_list("WGL_ARB_multisample  WGL_EXT_swap_control ");
    assert_eq!(split, vec!["WGL_ARB_multisample".to_string(), "WGL_EXT_swap_control".to_string()]);
    assert_eq!(split_extension_list(""), Vec::<String>::new());
    assert_eq!(split_extension_list("   "), Vec::<String>::new());
    assert_eq!(split_extension_list("one"), vec!["one".to_string()]);
}

#[test]
fn decimal_strings() {
    assert_eq!(decimal_string(0), "0");
    assert_eq!(decimal_string(7), "7");
    assert_eq!(decimal_string(40), "40");
    assert_eq!(decimal_string(4294967295), "4294967295");
}
