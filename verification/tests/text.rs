use extauthz_cfzt::text::{chars_of, contains_str, first_line_of, push_decimal, white_space, words_of};

#[test]
fn words_match_split_whitespace() {
    for s in ["", "  a  b ", "GET /x HTTP/1.1", "a\u{3000}b\u{85}c", "\t\n x"] {
        let chars = chars_of(s);
        let got: Vec<String> = words_of(&chars).into_iter().map(|w| w.into_iter().collect()).collect();
        let expected: Vec<String> = s.split_whitespace().map(|w| w.to_string()).collect();
        assert_eq!(got, expected);
    }
    for c in ['\u{0}', 'a', ' ', '\u{a0}', '\u{2028}', '\u{200b}', '\u{feff}'] {
        assert_eq!(white_space(c), c.is_whitespace());
    }
}

#[test]
fn first_line_and_search() {
    let chars = chars_of("ab\ncd\n");
    assert_eq!(first_line_of(&chars), vec!['a', 'b']);
    assert_eq!(first_line_of(&chars_of("xyz")), vec!['x', 'y', 'z']);
    assert!(contains_str(&chars_of("hello world"), "o w"));
    assert!(!contains_str(&chars_of("hello"), "hello!"));
    assert!(contains_str(&chars_of(""), ""));
}

#[test]
fn decimal_rendering() {
    for n in [0usize, 7, 10, 99, 1234567, usize::MAX] {
        let mut s = String::from("n=");
        push_decimal(&mut s, n);
        assert_eq!(s, format!("n={}", n));
    }
}
