use decoded_char::DecodedChar;

#[test]
fn utf8_unit_lengths_by_range() {
    assert_eq!(DecodedChar::from_utf8('a').len(), 1);
    assert_eq!(DecodedChar::from_utf8('\u{7F}').len(), 1);
    assert_eq!(DecodedChar::from_utf8('\u{80}').len(), 2);
    assert_eq!(DecodedChar::from_utf8('é').len(), 2);
    assert_eq!(DecodedChar::from_utf8('\u{7FF}').len(), 2);
    assert_eq!(DecodedChar::from_utf8('\u{800}').len(), 3);
    assert_eq!(DecodedChar::from_utf8('中').len(), 3);
    assert_eq!(DecodedChar::from_utf8('\u{FFFF}').len(), 3);
    assert_eq!(DecodedChar::from_utf8('\u{10000}').len(), 4);
    assert_eq!(DecodedChar::from_utf8('\u{10FFFF}').len(), 4);
}

#[test]
fn utf8_unit_lengths_match_std_encoding() {
    let samples = ['a', '\u{7F}', '\u{80}', 'é', '\u{7FF}', '\u{800}', '中', '\u{FFFF}',
        '\u{10000}', '😀', '\u{10FFFF}'];
    for c in samples {
        assert_eq!(DecodedChar::from_utf8(c).len(), c.len_utf8());
        assert_eq!(DecodedChar::from_utf16(c).len(), c.len_utf16());
    }
}

#[test]
fn utf16_unit_lengths_by_range() {
    assert_eq!(DecodedChar::from_utf16('a').len(), 1);
    assert_eq!(DecodedChar::from_utf16('中').len(), 1);
    assert_eq!(DecodedChar::from_utf16('\u{FFFF}').len(), 1);
    assert_eq!(DecodedChar::from_utf16('\u{10000}').len(), 2);
    assert_eq!(DecodedChar::from_utf16('\u{10FFFF}').len(), 2);
}

#[test]
fn emoji_unit_lengths() {
    assert_eq!(DecodedChar::from_utf16('😀').len(), 2);
    assert_eq!(DecodedChar::from_utf8('😀').len(), 4);
}

#[test]
fn round_trip_gives_back_the_character() {
    let samples = ['a', 'é', '中', '😀', '\u{10FFFF}'];
    for c in samples {
        assert_eq!(DecodedChar::from_utf8(c).into_char(), c);
        assert_eq!(DecodedChar::from_utf16(c).into_char(), c);
    }
}

#[test]
fn generic_constructor_stores_both_fields_unchecked() {
    let d = DecodedChar::new('x', 99);
    assert_eq!(d.chr(), 'x');
    assert_eq!(d.len(), 99);
    assert_eq!(d.into_len(), 99);
    let d = DecodedChar::new('x', 99);
    assert_eq!(d.into_char(), 'x');
}

#[test]
fn conversion_to_scalar_value() {
    assert_eq!(DecodedChar::from_utf8('a').into_u32(), 0x61);
    assert_eq!(DecodedChar::from_utf16('😀').into_u32(), 0x1F600);
}

#[test]
fn equality_ignores_stored_length() {
    assert!(DecodedChar::new('x', 0).eq_char('x'));
    assert!(DecodedChar::new('x', 1).eq_char('x'));
    assert!(DecodedChar::new('x', 99).eq_char('x'));
    assert!(!DecodedChar::new('x', 1).eq_char('y'));
    assert!(DecodedChar::from_utf8('é').eq_char('é'));
}
