use chess_tui::text::{contains_text, decimal_chars, parse_usize, split_char, trim_chars};

fn chars(s: &str) -> Vec<char> {
    s.chars().collect()
}

#[test]
fn numbers_are_read_back() {
    for n in [0u64, 9, 10, 99, 100, 2308, 4_294_967_295] {
        let text = decimal_chars(n);
        assert_eq!(text.iter().collect::<String>(), n.to_string());
        assert_eq!(parse_usize(&text), Some(n as usize));
    }
}

#[test]
fn numbers_as_str_parse_reads_them() {
    assert_eq!(parse_usize(&chars("+12")), Some(12));
    assert_eq!(parse_usize(&chars("")), None);
    assert_eq!(parse_usize(&chars("+")), None);
    assert_eq!(parse_usize(&chars("1a")), None);
    assert_eq!(parse_usize(&chars("-1")), None);
}

#[test]
fn text_search_and_splitting() {
    assert!(contains_text(&chars("https://lichess.org/abc"), &chars("lichess.org/")));
    assert!(!contains_text(&chars("lichess.or"), &chars("lichess.org/")));
    assert!(contains_text(&chars("abc"), &chars("")));
    let parts = split_char(&chars("a//b"), '/');
    assert_eq!(parts, vec![chars("a"), chars(""), chars("b")]);
    assert_eq!(trim_chars(&chars("  x y \n")), chars("x y"));
}
