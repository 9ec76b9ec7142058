use polysqueeze::api::cursor::{
    decode_cursor, encode_cursor, next_page_cursor, page_offset, GAMMA_MARKETS_LIMIT,
};

#[test]
fn cursor_encodes_decimal_offset_as_base64() {
    assert_eq!(encode_cursor(50), "NTA=");
    assert_eq!(encode_cursor(0), "MA==");
    assert_eq!(encode_cursor(u64::MAX), "MTg0NDY3NDQwNzM3MDk1NTE2MTU=");
}

#[test]
fn cursor_decodes_back() {
    assert_eq!(decode_cursor("NTA="), Some(50));
    assert_eq!(decode_cursor("MA=="), Some(0));
    assert_eq!(decode_cursor("MTg0NDY3NDQwNzM3MDk1NTE2MTU="), Some(u64::MAX));
    assert_eq!(decode_cursor("Kzc="), Some(7));
    for n in [1u64, 9, 10, 99, 100, 123456789, u64::MAX - 1] {
        assert_eq!(decode_cursor(&encode_cursor(n)), Some(n));
    }
}

#[test]
fn cursor_rejects_bad_text() {
    assert_eq!(decode_cursor("!!"), None);
    assert_eq!(decode_cursor("YWJj"), None);
    assert_eq!(decode_cursor("MTg0NDY3NDQwNzM3MDk1NTE2MTY="), None);
    assert_eq!(decode_cursor(""), None);
    assert_eq!(decode_cursor("Kw=="), None);
    assert_eq!(decode_cursor("LTU="), None);
    assert_eq!(decode_cursor("MSA="), None);
}

#[test]
fn page_offsets_and_next_cursor() {
    assert_eq!(page_offset(None), 0);
    assert_eq!(page_offset(Some("NTA=")), 50);
    assert_eq!(page_offset(Some("bad!")), 0);
    assert_eq!(next_page_cursor(0, 50, GAMMA_MARKETS_LIMIT), Some("NTA=".to_string()));
    assert_eq!(next_page_cursor(0, 49, GAMMA_MARKETS_LIMIT), None);
    assert_eq!(next_page_cursor(25, 0, 50), None);
}
