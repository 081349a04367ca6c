use pumpkin_core::text::{
    char_is_space, concat3, decimal_string, ends_with_char, str_equal, trim,
};
use pumpkin_core::words::{join_with_spaces, split_words};

#[test]
fn whitespace_matches_std() {
    for code in 0u32..0x3100 {
        if let Some(c) = char::from_u32(code) {
            assert_eq!(char_is_space(c), c.is_whitespace(), "{:?}", c);
        }
    }
    assert!(!char_is_space('\u{feff}'));
}

#[test]
fn decimal_matches_to_string() {
    for n in [0u32, 7, 10, 99, 100, 4242, 65535, u32::MAX] {
        assert_eq!(decimal_string(n), n.to_string());
    }
}

#[test]
fn string_helpers() {
    assert!(str_equal("abc", "abc"));
    assert!(!str_equal("abc", "abd"));
    assert!(!str_equal("abc", "ab"));
    assert!(str_equal("", ""));
    assert!(ends_with_char("say hi\n", '\n'));
    assert!(!ends_with_char("", '\n'));
    assert_eq!(concat3("a", "", "é"), "aé");
}

#[test]
fn trim_matches_std() {
    for s in ["", "   ", " a ", "\tpath/to dir\n", "x", "\u{3000}ü\u{a0}", "a b"] {
        assert_eq!(trim(s), s.trim());
    }
}

#[test]
fn split_matches_std() {
    for s in ["", "  ", "--nogui", " -Xmx2G  --nogui\t-p 25565 ", "a\u{2003}b", "é ü"] {
        let expected: Vec<String> = s.split_whitespace().map(str::to_string).collect();
        assert_eq!(split_words(s), expected);
    }
}

#[test]
fn join_then_split_gives_words_back() {
    let args = vec!["-Xmx2G".to_string(), "--nogui".to_string(), "x".to_string()];
    let text = join_with_spaces(&args);
    assert_eq!(text, "-Xmx2G --nogui x");
    assert_eq!(split_words(&text), args);
    assert_eq!(join_with_spaces(&Vec::new()), "");
    let messy = "  a   b\tc ";
    let once = split_words(messy);
    assert_eq!(split_words(&join_with_spaces(&once)), once);
}

#[test]
fn words_cover_the_text() {
    for s in ["", " a  bc\td ", "x", "\u{3000}é ü"] {
        let joined: String = split_words(s).concat();
        let expected: String = s.chars().filter(|c| !c.is_whitespace()).collect();
        assert_eq!(joined, expected);
    }
}
