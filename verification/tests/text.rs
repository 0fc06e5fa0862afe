use project_tools::text::{
    append_text, chars_of, find_in, is_ascii_alphanumeric, is_whitespace, line_end, lower_char,
    lowercased, matches_at, same_text, split_lines, string_of, trim_bounds, trimmed,
};

fn every_char() -> Vec<char> {
    let mut all = Vec::new();
    let mut code: u32 = 0;
    while code <= 0x10FFFF {
        if let Some(c) = char::from_u32(code) {
            all.push(c);
        }
        code += 1;
    }
    all
}

#[test]
fn whitespace_agrees_with_the_standard_library_on_every_character() {
    for c in every_char() {
        assert_eq!(is_whitespace(c), c.is_whitespace(), "U+{:04X}", c as u32);
    }
}

#[test]
fn alphanumeric_agrees_with_the_standard_library_on_every_character() {
    for c in every_char() {
        assert_eq!(is_ascii_alphanumeric(c), c.is_ascii_alphanumeric(), "U+{:04X}", c as u32);
    }
}

#[test]
fn lowering_agrees_with_the_standard_library_on_every_character() {
    for c in every_char() {
        assert_eq!(lower_char(c), c.to_ascii_lowercase(), "U+{:04X}", c as u32);
    }
}

#[test]
fn trimmed_drops_surrounding_white_space_only() {
    assert_eq!(trimmed("  a b\t\n"), "a b");
    assert_eq!(trimmed("\u{3000}x\u{a0}"), "x");
    assert_eq!(trimmed(" \r\n "), "");
    assert_eq!(trimmed(""), "");
    assert_eq!(trimmed("x"), "x");
    assert_eq!(trimmed("\u{200b}x"), "\u{200b}x");
}

#[test]
fn trimmed_agrees_with_the_standard_library() {
    let samples = [
        "", " ", "a", " a", "a ", "  a  b  ", "\t\r\n", "\u{85}é\u{2028}", "é", " \u{feff} ",
        "path = x\r",
    ];
    for s in samples {
        assert_eq!(trimmed(s), s.trim(), "{:?}", s);
    }
}

#[test]
fn trim_bounds_stay_inside_the_range() {
    let chars = chars_of("ab  cd  ef");
    assert_eq!(trim_bounds(&chars, 2, 8), (4, 6));
    assert_eq!(trim_bounds(&chars, 2, 4), (4, 4));
    assert_eq!(trim_bounds(&chars, 0, 10), (0, 10));
    assert_eq!(trim_bounds(&chars, 3, 3), (3, 3));
}

#[test]
fn lowercased_lowers_ascii_letters_only() {
    assert_eq!(lowercased("YeS"), "yes");
    assert_eq!(lowercased("ÀB c1"), "Àb c1");
    assert_eq!(lowercased(""), "");
}

#[test]
fn chars_and_strings_round_trip() {
    let chars = chars_of("héllo");
    assert_eq!(chars, vec!['h', 'é', 'l', 'l', 'o']);
    assert_eq!(string_of(&chars, 1, 4), "éll");
    assert_eq!(string_of(&chars, 0, 5), "héllo");
    assert_eq!(string_of(&chars, 2, 2), "");
}

#[test]
fn append_text_appends() {
    let mut out = String::from("ab");
    append_text(&mut out, "cd");
    assert_eq!(out, "abcd");
    append_text(&mut out, "");
    assert_eq!(out, "abcd");
}

#[test]
fn same_text_compares_characters() {
    assert!(same_text("init", "init"));
    assert!(!same_text("init", "Init"));
    assert!(!same_text("init", "ini"));
    assert!(!same_text("ini", "init"));
    assert!(same_text("", ""));
}

#[test]
fn matches_at_compares_a_window() {
    let hay = chars_of("xxpath = y");
    let pattern = chars_of("path = ");
    assert!(matches_at(&hay, 2, &pattern));
    assert!(!matches_at(&hay, 1, &pattern));
    assert!(matches_at(&hay, 10, &chars_of("")));
}

#[test]
fn find_in_returns_the_first_occurrence_inside_the_range() {
    let hay = chars_of("abcabcabc");
    let pattern = chars_of("bc");
    assert_eq!(find_in(&hay, 0, 9, &pattern), Some(1));
    assert_eq!(find_in(&hay, 2, 9, &pattern), Some(4));
    assert_eq!(find_in(&hay, 2, 5, &pattern), None);
    assert_eq!(find_in(&hay, 8, 9, &pattern), None);
    assert_eq!(find_in(&hay, 3, 9, &chars_of("")), Some(3));
    assert_eq!(find_in(&hay, 0, 9, &chars_of("abcabcabcd")), None);
}

#[test]
fn line_end_stops_at_the_line_feed() {
    let chars = chars_of("ab\ncd\n\nef");
    assert_eq!(line_end(&chars, 0), 2);
    assert_eq!(line_end(&chars, 2), 2);
    assert_eq!(line_end(&chars, 3), 5);
    assert_eq!(line_end(&chars, 6), 6);
    assert_eq!(line_end(&chars, 7), 9);
    assert_eq!(line_end(&chars, 9), 9);
}

#[test]
fn split_lines_ends_lines_at_line_feeds() {
    assert_eq!(split_lines("a\nb\n"), vec!["a", "b"]);
    assert_eq!(split_lines("a\nb"), vec!["a", "b"]);
    assert_eq!(split_lines("a\r\nb\r\n"), vec!["a", "b"]);
    assert_eq!(split_lines("\n\n"), vec!["", ""]);
    assert_eq!(split_lines("a\rb\r"), vec!["a\rb\r"]);
    assert_eq!(split_lines("a\r\r\n"), vec!["a\r"]);
    assert_eq!(split_lines(""), Vec::<String>::new());
}

#[test]
fn split_lines_agrees_with_the_standard_library() {
    let samples = [
        "", "\n", "\r", "\r\n", "a", "a\n", "a\r", "a\r\n", "a\n\r", "a\n\rb", "\n\na\n\n",
        "a\r\n\r\nb", "é\nü", "a\nb\r", "\r\r\n\r",
    ];
    for text in samples {
        let expected: Vec<String> = text.lines().map(|line| line.to_string()).collect();
        assert_eq!(split_lines(text), expected, "{:?}", text);
    }
}
