use feenk_signer::text::{join, split_words, line_one, push_decimal, remove_char};

#[test]
fn remove_char_drops_every_quote() {
    assert_eq!(remove_char("\"a\" \"b\"", '"'), "a b");
    assert_eq!(remove_char("", '"'), "");
    assert_eq!(remove_char("no quotes", '"'), "no quotes");
}

#[test]
fn line_one_follows_str_lines() {
    assert_eq!(line_one(""), None);
    assert_eq!(line_one("abc"), Some("abc".to_string()));
    assert_eq!(line_one("abc\ndef"), Some("abc".to_string()));
    assert_eq!(line_one("abc\r\ndef"), Some("abc".to_string()));
    assert_eq!(line_one("abc\r"), Some("abc\r".to_string()));
    assert_eq!(line_one("\n"), Some("".to_string()));
    assert_eq!(line_one("\r\n"), Some("".to_string()));
    for s in ["", "x", "x\ny", "x\r\ny", "\r", "a\rb\nc"] {
        assert_eq!(line_one(s), s.lines().next().map(|l| l.to_string()));
    }
}

#[test]
fn push_decimal_renders_decimal() {
    for n in [0u16, 7, 10, 42, 999, 1000, 65535] {
        let mut s = String::from("n=");
        push_decimal(&mut s, n);
        assert_eq!(s, format!("n={}", n));
    }
}

#[test]
fn join_adds_one_separator() {
    assert_eq!(join("/tmp", "MyKeychain.keychain"), "/tmp/MyKeychain.keychain");
    assert_eq!(join("/", "MyKeychain.keychain"), "/MyKeychain.keychain");
    assert_eq!(join("/tmp/", "x"), "/tmp/x");
    assert_eq!(join("", "x"), "x");
}

#[test]
fn split_words_follows_split_whitespace() {
    for s in ["", "   ", " a b\n c\t", "x\u{3000}y", "one"] {
        let expected: Vec<String> = s.split_whitespace().map(|w| w.to_string()).collect();
        assert_eq!(split_words(s, false), expected);
    }
}

#[test]
fn split_words_of_a_listing() {
    assert_eq!(split_words("  1) ABC \"Name\"", false), vec!["1)".to_string(), "ABC".to_string(), "\"Name\"".to_string()]);
}

#[test]
fn shell_split_uses_space_tab_newline_only() {
    assert_eq!(
        split_words(" a\u{A0}b\tc\r\nd ", true),
        vec!["a\u{A0}b".to_string(), "c\r".to_string(), "d".to_string()]
    );
    assert_eq!(split_words(" a\u{A0}b ", false), vec!["a".to_string(), "b".to_string()]);
}
