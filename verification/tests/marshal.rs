use rglua::{cstr, cstr_literal, rstr, try_cstr, try_rstr, LuaError, LuaString};

#[test]
fn round_trip_ascii() {
    let h = cstr("hello");
    assert_eq!(rstr(&h), "hello");
}

#[test]
fn round_trip_multibyte() {
    let s = "h\u{e9}llo w\u{f6}rld \u{1f44d}";
    let h = try_cstr(s).unwrap();
    assert_eq!(try_rstr(&h).unwrap(), s);
}

#[test]
fn round_trip_empty() {
    let h = cstr("");
    assert_eq!(h.len(), 1);
    assert_eq!(h.byte_at(0), 0);
    assert_eq!(rstr(&h), "");
}

#[test]
fn try_cstr_reports_embedded_null() {
    assert_eq!(try_cstr("a\0b").unwrap_err(), LuaError::EmbeddedNull);
}

#[test]
fn try_cstr_accepts_null_free_text() {
    let h = try_cstr("no nulls here").unwrap();
    assert_eq!(rstr(&h), "no nulls here");
}

#[test]
fn literal_hello_world_first_byte() {
    let h = cstr_literal("Hello world!");
    assert_eq!(h.byte_at(0), b"Hello world!"[0]);
}

#[test]
fn literal_appends_terminator() {
    let h = cstr_literal("Hello world!");
    let raw = b"Hello world!";
    assert_eq!(h.len(), raw.len() + 1);
    for i in 0..raw.len() {
        assert_eq!(h.byte_at(i), raw[i]);
    }
    assert_eq!(h.byte_at(raw.len()), 0);
}

#[test]
fn literal_with_interior_null_truncates_content() {
    let h = cstr_literal("ab\0cd");
    assert_eq!(try_rstr(&h).unwrap(), "ab");
}

#[test]
fn try_rstr_reports_invalid_encoding() {
    let h = LuaString::from_bytes(vec![0xff, 0xfe, 0x41, 0]);
    assert_eq!(try_rstr(&h).unwrap_err(), LuaError::InvalidEncoding);
}

#[test]
fn from_bytes_reads_up_to_first_null() {
    let h = LuaString::from_bytes(vec![b'h', b'i', 0, b'x', 0]);
    assert_eq!(rstr(&h), "hi");
}

#[test]
fn rstr_translates_multibyte_content() {
    // 0xc3 0xa9 is the two-byte encoding of 'é': decoding must translate
    // the bytes, not hand them through.
    let h = LuaString::from_bytes(vec![0xc3, 0xa9, 0]);
    assert_eq!(rstr(&h), "\u{e9}");
}
