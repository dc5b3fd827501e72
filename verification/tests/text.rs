use gws_executa::text::{
    chars_of, contains_control, is_control_char, is_whitespace_char, same_text, trim,
};

#[test]
fn character_classes_are_those_of_unicode() {
    for c in '\0'..=char::MAX {
        assert_eq!(is_whitespace_char(c), c.is_whitespace(), "{:?}", c);
        assert_eq!(is_control_char(c), c.is_control(), "{:?}", c);
    }
}

#[test]
fn trim_takes_white_space_off_both_ends() {
    for text in [
        "",
        " ",
        "\r\n",
        "a",
        " a b ",
        "\u{3000}\u{a0}wide\u{2003}",
        "\u{200b}kept\u{feff}",
        "\u{85}x y\t\n",
    ] {
        assert_eq!(trim(text), text.trim());
        assert_eq!(trim(trim(text)), trim(text));
        assert_eq!(trim(text).is_empty(), text.chars().all(char::is_whitespace));
    }
}

#[test]
fn control_characters_are_found_anywhere() {
    assert!(contains_control("a\nb"));
    assert!(contains_control("\u{9f}"));
    assert!(contains_control("tail\u{7f}"));
    assert!(!contains_control(""));
    assert!(!contains_control("plain \u{a0} text"));
}

#[test]
fn texts_are_compared_by_their_characters() {
    assert!(same_text("gws", "gws"));
    assert!(!same_text("gws", "gws "));
    assert!(!same_text("", "gws"));
    assert_eq!(chars_of("g\u{e9}"), vec!['g', '\u{e9}']);
}
