use bili_music_download::encode::gen_cookie;

#[test]
fn token_separators_are_percent_encoded() {
    assert_eq!(gen_cookie("abc=123&x"), "sessdata=abc%3D123%26x");
}

#[test]
fn encoded_value_has_no_raw_separators() {
    let c = gen_cookie("a=b&c=d==");
    let value = &c["sessdata=".len()..];
    assert!(!value.contains('='));
    assert!(!value.contains('&'));
}

#[test]
fn unreserved_characters_stay_raw() {
    assert_eq!(gen_cookie("AZaz09-_.~"), "sessdata=AZaz09-_.~");
}

#[test]
fn empty_token_gives_bare_key() {
    assert_eq!(gen_cookie(""), "sessdata=");
}

#[test]
fn other_reserved_characters_are_encoded_too() {
    assert_eq!(gen_cookie("a b/c"), "sessdata=a%20b%2Fc");
}

#[test]
fn tokens_beyond_ascii_are_encoded_byte_by_byte() {
    assert_eq!(gen_cookie("é"), "sessdata=%C3%A9");
}
