use openfrp_launcher::text::{
    decimal_text, is_white_space, joined, last_word_of_first_line, same_text, trim_matches,
};

#[test]
fn same_text_compares_characters() {
    assert!(same_text("linux", "linux"));
    assert!(!same_text("linux", "Linux"));
    assert!(!same_text("x86", "x86_64"));
    assert!(same_text("", ""));
    assert!(!same_text("", " "));
}

#[test]
fn joined_appends() {
    assert_eq!(joined("frpc-log-", "a"), "frpc-log-a");
    assert_eq!(joined("", "b"), "b");
    assert_eq!(joined("a", ""), "a");
}

#[test]
fn trim_matches_strips_both_ends() {
    assert_eq!(trim_matches("/1.2.3/", '/'), "1.2.3");
    assert_eq!(trim_matches("//release/0.61.1///", '/'), "release/0.61.1");
    assert_eq!(trim_matches("1.2.3", '/'), "1.2.3");
    assert_eq!(trim_matches("/1.2.3", '/'), "1.2.3");
    assert_eq!(trim_matches("1.2.3/", '/'), "1.2.3");
}

#[test]
fn trim_matches_of_nothing_but_the_character() {
    assert_eq!(trim_matches("", '/'), "");
    assert_eq!(trim_matches("/", '/'), "");
    assert_eq!(trim_matches("////", '/'), "");
}

#[test]
fn trim_matches_agrees_with_the_standard_library() {
    for s in ["", "/", "a", "/a", "a/", "/a/", "//a//b//", "版本/一/", "/ /", "a/b"] {
        assert_eq!(trim_matches(s, '/'), s.trim_matches('/'));
        assert_eq!(trim_matches(s, 'a'), s.trim_matches('a'));
    }
}

#[test]
fn decimal_text_writes_numbers() {
    assert_eq!(decimal_text(0), "0");
    assert_eq!(decimal_text(7), "7");
    assert_eq!(decimal_text(10), "10");
    assert_eq!(decimal_text(1234), "1234");
    assert_eq!(decimal_text(90210), "90210");
    assert_eq!(decimal_text(4294967295), "4294967295");
}

#[test]
fn decimal_text_agrees_with_the_standard_library() {
    let mut n: u32 = 0;
    for _ in 0..2000 {
        assert_eq!(decimal_text(n), n.to_string());
        n = n.wrapping_mul(1664525).wrapping_add(1013904223);
    }
}

#[test]
fn white_space_is_the_unicode_property() {
    let mut n: u32 = 0;
    while n <= 0x10FFFF {
        if let Some(c) = char::from_u32(n) {
            assert_eq!(is_white_space(c), c.is_whitespace());
        }
        n += 1;
    }
}

#[test]
fn last_word_of_first_line_examples() {
    assert_eq!(last_word_of_first_line("frpc version 0.61.1"), "0.61.1");
    assert_eq!(last_word_of_first_line("frpc version 0.61.1\n"), "0.61.1");
    assert_eq!(last_word_of_first_line("frpc version 0.61.1\r\nbuilt with go\n"), "0.61.1");
    assert_eq!(last_word_of_first_line("0.61.1   \t"), "0.61.1");
    assert_eq!(last_word_of_first_line("  v1  "), "v1");
    assert_eq!(last_word_of_first_line("one"), "one");
}

#[test]
fn last_word_of_first_line_without_a_word() {
    assert_eq!(last_word_of_first_line(""), "");
    assert_eq!(last_word_of_first_line("\n0.61.1"), "");
    assert_eq!(last_word_of_first_line("   \nsecond line"), "");
    assert_eq!(last_word_of_first_line("\r\n"), "");
}

#[test]
fn last_word_of_first_line_agrees_with_the_standard_library() {
    for s in [
        "",
        "a",
        " a ",
        "a b\nc d",
        "a\u{3000}b",
        "x\u{a0}y\u{2003}z \n w",
        "\n",
        "\r\n",
        "only\r",
        "tab\tsep\u{85}next",
        "版本 0.61.1\n",
    ] {
        let expected = s.lines().next().and_then(|l| l.split_whitespace().last()).unwrap_or("");
        assert_eq!(last_word_of_first_line(s), expected);
    }
}
