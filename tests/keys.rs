use typing_test::keys::from_code_to_key;

#[test]
fn decodes_ascii_letters_and_symbols() {
    assert_eq!(from_code_to_key(97), Some('a'));
    assert_eq!(from_code_to_key(90), Some('Z'));
    assert_eq!(from_code_to_key(48), Some('0'));
    assert_eq!(from_code_to_key(92), Some('\\'));
    assert_eq!(from_code_to_key(39), Some('\''));
    assert_eq!(from_code_to_key(125), Some('}'));
}

#[test]
fn decodes_accented_letters() {
    assert_eq!(from_code_to_key(167), Some('ç'));
    assert_eq!(from_code_to_key(163), Some('ã'));
    assert_eq!(from_code_to_key(129), Some('Á'));
    assert_eq!(from_code_to_key(188), Some('Ẽ'));
    assert_eq!(from_code_to_key(189), Some('ẽ'));
}

#[test]
fn unknown_codes_have_no_glyph() {
    for code in [0, 10, 94, 95, 96, 126, 127, 128, 190, 255, -1, 1000] {
        assert_eq!(from_code_to_key(code), None, "code {}", code);
    }
}
