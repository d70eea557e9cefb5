use kube_tui::text::{
    chars_of, contains_chars_ignore_case, fold_case, is_blank_text, is_occurrence, is_whitespace,
    line_count, name_matches, same_text, split_lines, split_words,
};

const SAMPLES: [&str; 22] = [
    "",
    "a",
    "\n",
    "\r\n",
    "a\n",
    "a\nb",
    "a\r\nb\r\n",
    "a\n\nb",
    "\n\n",
    "a\r",
    "a\rb\n",
    "\r",
    "one two  three",
    "  leading and trailing  ",
    "tabs\tand\u{a0}no-break\u{2003}spaces",
    "pod-1   12m   34Mi\npod-2   1   2Gi\n\n",
    "ünïcödé\nlines\r\n",
    "a\r\r\n",
    "\u{85}next\u{2028}line",
    "x\u{3000}y\u{1680}z",
    "last line without newline\r\nend",
    " \t \n \r\n  ",
];

#[test]
fn chars_of_gives_the_characters() {
    for s in SAMPLES {
        assert_eq!(chars_of(s), s.chars().collect::<Vec<char>>());
    }
}

#[test]
fn split_lines_agrees_with_the_standard_library() {
    for s in SAMPLES {
        let expected: Vec<String> = s.lines().map(|l| l.to_string()).collect();
        assert_eq!(split_lines(s), expected, "for {:?}", s);
    }
}

#[test]
fn split_lines_on_named_cases() {
    assert_eq!(split_lines(""), Vec::<String>::new());
    assert_eq!(split_lines("a\n"), vec!["a"]);
    assert_eq!(split_lines("a\n\n"), vec!["a", ""]);
    assert_eq!(split_lines("a\r\nb"), vec!["a", "b"]);
    assert_eq!(split_lines("a\r"), vec!["a\r"]);
}

#[test]
fn line_count_agrees_with_the_standard_library() {
    for s in SAMPLES {
        assert_eq!(line_count(s), s.lines().count(), "for {:?}", s);
    }
    assert_eq!(line_count("a\nb\nc"), 3);
    assert_eq!(line_count("a\nb\nc\n"), 3);
}

#[test]
fn split_words_agrees_with_the_standard_library() {
    for s in SAMPLES {
        let expected: Vec<String> = s.split_whitespace().map(|w| w.to_string()).collect();
        assert_eq!(split_words(s), expected, "for {:?}", s);
    }
}

#[test]
fn whitespace_agrees_with_the_standard_library() {
    for code in 0u32..0x3100 {
        if let Some(c) = char::from_u32(code) {
            assert_eq!(is_whitespace(c), c.is_whitespace(), "for U+{:04X}", code);
        }
    }
    assert!(!is_whitespace('\u{10FFFF}'));
}

#[test]
fn blank_means_only_whitespace() {
    for s in SAMPLES {
        assert_eq!(is_blank_text(s), s.trim().is_empty(), "for {:?}", s);
    }
    assert!(is_blank_text(""));
    assert!(is_blank_text(" \t"));
    assert!(!is_blank_text(" x "));
}

#[test]
fn fold_case_lowers_only_ascii_capitals() {
    for code in 0u32..0x250 {
        if let Some(c) = char::from_u32(code) {
            assert_eq!(fold_case(c), c.to_ascii_lowercase());
        }
    }
    assert_eq!(fold_case('A'), 'a');
    assert_eq!(fold_case('Z'), 'z');
    assert_eq!(fold_case('@'), '@');
    assert_eq!(fold_case('['), '[');
    assert_eq!(fold_case('É'), 'É');
}

#[test]
fn matching_ignores_case_and_finds_any_position() {
    let q = |s: &str| s.chars().collect::<Vec<char>>();
    assert!(name_matches("web-frontend", &q("web")));
    assert!(name_matches("My-WEB-cache", &q("web")));
    assert!(name_matches("my-web", &q("WEB")));
    assert!(name_matches("xxweb", &q("web")));
    assert!(!name_matches("we-b", &q("web")));
    assert!(!name_matches("we", &q("web")));
    assert!(name_matches("anything", &q("")));
    assert!(name_matches("", &q("")));
    assert!(!name_matches("", &q("a")));
}

#[test]
fn occurrence_is_checked_at_the_given_position_only() {
    let hay: Vec<char> = "abcABC".chars().collect();
    let needle: Vec<char> = "bc".chars().collect();
    assert!(!is_occurrence(&hay, &needle, 0));
    assert!(is_occurrence(&hay, &needle, 1));
    assert!(is_occurrence(&hay, &needle, 4));
    assert!(!is_occurrence(&hay, &needle, 5));
    assert!(!is_occurrence(&hay, &needle, 6));
    assert!(!is_occurrence(&hay, &needle, usize::MAX));
    assert!(is_occurrence(&hay, &Vec::new(), 6));
    assert!(!is_occurrence(&hay, &Vec::new(), 7));
    assert!(contains_chars_ignore_case(&hay, &needle));
    assert!(!contains_chars_ignore_case(&needle, &hay));
}

#[test]
fn same_text_is_exact() {
    for a in SAMPLES {
        for b in SAMPLES {
            assert_eq!(same_text(a, b), a == b);
        }
    }
}
