use mousepage::text::str_eq;

#[test]
fn strings_are_equal_if_their_characters_are() {
    assert!(str_eq("", ""));
    assert!(str_eq("S", "S"));
    assert!(str_eq("LeftButton", "LeftButton"));
    assert!(str_eq("h\u{e9}llo \u{1F600}", "h\u{e9}llo \u{1F600}"));
}

#[test]
fn strings_differ_in_length_or_in_a_character() {
    assert!(!str_eq("S", ""));
    assert!(!str_eq("S", "s"));
    assert!(!str_eq("LeftButton", "LeftButto"));
    assert!(!str_eq("LeftButton", "LeftButtom"));
    assert!(!str_eq("\u{e9}", "e"));
    assert!(!str_eq("\u{e9}", "\u{e8}"));
}
