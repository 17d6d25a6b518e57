use baldguard::error::GenericError;
use baldguard::parse_error::ParseError;
use baldguard::text::{int_to_string, is_whitespace, split_first_word, str_eq, Separator};

#[test]
fn strings_are_equal_when_their_characters_are() {
    assert!(str_eq("", ""));
    assert!(str_eq("abc", "abc"));
    assert!(!str_eq("abc", "abd"));
    assert!(!str_eq("abc", "ab"));
    assert!(!str_eq("ab", "abc"));
    assert!(!str_eq("abc", "ABC"));
    assert!(str_eq("gr\u{fc}n", "gr\u{fc}n"));
    assert!(!str_eq("gr\u{fc}n", "grun"));
    assert!(!str_eq("e\u{301}", "\u{e9}"));
}

#[test]
fn whitespace_is_the_unicode_property() {
    let mut c = 0u32;
    while c <= 0x10ffff {
        if let Some(ch) = char::from_u32(c) {
            assert_eq!(is_whitespace(ch), ch.is_whitespace(), "U+{:04X}", c);
        }
        c += 1;
    }
}

#[test]
fn decimal_rendering() {
    assert_eq!(int_to_string(0), "0");
    assert_eq!(int_to_string(5), "5");
    assert_eq!(int_to_string(10), "10");
    assert_eq!(int_to_string(-1), "-1");
    assert_eq!(int_to_string(1234567890), "1234567890");
    assert_eq!(int_to_string(i64::MIN), "-9223372036854775808");
    let mut i: i64 = -1000;
    while i <= 1000 {
        assert_eq!(int_to_string(i), i.to_string());
        i += 1;
    }
}

#[test]
fn concatenation() {
    assert_eq!(baldguard::text::concat("ab", "cd"), "abcd");
    assert_eq!(baldguard::text::concat("", "cd"), "cd");
    assert_eq!(baldguard::text::concat("ab", ""), "ab");
}

#[test]
fn the_first_word_ends_at_whitespace() {
    assert_eq!(split_first_word("/help", Separator::Whitespace), ("/help", None));
    assert_eq!(split_first_word("/eval 1 + 2", Separator::Whitespace), ("/eval", Some("1 + 2")));
    assert_eq!(split_first_word("/eval    1", Separator::Whitespace), ("/eval", Some("1")));
    assert_eq!(split_first_word("/eval\n\t1 ", Separator::Whitespace), ("/eval", Some("1 ")));
    assert_eq!(split_first_word("/eval ", Separator::Whitespace), ("/eval", None));
    assert_eq!(split_first_word("/eval   ", Separator::Whitespace), ("/eval", None));
    assert_eq!(split_first_word(" x", Separator::Whitespace), ("", Some("x")));
    assert_eq!(split_first_word(" ", Separator::Whitespace), ("", None));
    assert_eq!(split_first_word("a", Separator::Whitespace), ("a", None));
    assert_eq!(
        split_first_word("gr\u{fc}n \u{fc}ber alles", Separator::Whitespace),
        ("gr\u{fc}n", Some("\u{fc}ber alles"))
    );
    assert_eq!(
        split_first_word("a\u{3000}\u{a0}b", Separator::Whitespace),
        ("a", Some("b"))
    );
}

#[test]
fn the_first_word_ends_at_a_character() {
    assert_eq!(split_first_word("/help@mybot", Separator::Char('@')), ("/help", Some("mybot")));
    assert_eq!(split_first_word("/help@", Separator::Char('@')), ("/help", None));
    assert_eq!(split_first_word("/help", Separator::Char('@')), ("/help", None));
    assert_eq!(split_first_word("/a@b@c", Separator::Char('@')), ("/a", Some("b@c")));
    assert_eq!(split_first_word("/a@  b", Separator::Char('@')), ("/a", Some("b")));
    assert_eq!(split_first_word("@b", Separator::Char('@')), ("", Some("b")));
    assert_eq!(split_first_word("a b", Separator::Char('@')), ("a b", None));
}

#[test]
fn separators() {
    assert!(Separator::Whitespace.test(' '));
    assert!(Separator::Whitespace.test('\n'));
    assert!(!Separator::Whitespace.test('@'));
    assert!(Separator::Char('@').test('@'));
    assert!(!Separator::Char('@').test(' '));
}

#[test]
fn a_generic_error_is_its_message() {
    let e = GenericError::from("database migration error: no".to_string());
    assert_eq!(e.to_string(), "database migration error: no");
    assert_eq!(e.clone().to_string(), "database migration error: no");
}

#[test]
fn parse_errors_render_their_messages() {
    let e = ParseError::IntegerOverflow("99999999999999999999".to_string());
    assert_eq!(e.to_string(), "integer literal 99999999999999999999 is too big");
    let e = ParseError::InvalidEscapeSequence("a\\qb".to_string());
    assert_eq!(e.to_string(), "string literal \"a\\qb\" contains invalid escape sequence(s)");
    assert_eq!(
        e.clone().to_string(),
        "string literal \"a\\qb\" contains invalid escape sequence(s)"
    );
}
