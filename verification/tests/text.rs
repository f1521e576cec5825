use repo_exporter::number::{exceeds, parse_i32};
use repo_exporter::text::{
    char_is_whitespace, contains, count_char, ends_with, find_char, matches_at, same_text,
    starts_with, to_chars, trailing_removed, trim_bounds,
};
use repo_exporter::input::parser::{slice, trim};

fn chars(s: &str) -> Vec<char> {
    s.chars().collect()
}

#[test]
fn white_space_is_what_the_standard_library_says() {
    let mut code: u32 = 0;
    while code <= 0x10FFFF {
        if let Some(c) = char::from_u32(code) {
            assert_eq!(char_is_whitespace(c), c.is_whitespace(), "U+{:04X}", code);
        }
        code += 1;
    }
}

#[test]
fn characters_of_a_string() {
    assert_eq!(to_chars(""), Vec::<char>::new());
    assert_eq!(to_chars("aß語"), vec!['a', 'ß', '語']);
}

#[test]
fn pattern_at_an_offset() {
    let text = chars("hello world");
    assert!(matches_at(&text, 11, &chars("world"), 6));
    assert!(!matches_at(&text, 10, &chars("world"), 6));
    assert!(!matches_at(&text, 11, &chars("world"), 5));
    assert!(matches_at(&text, 11, &chars(""), 11));
    assert!(!matches_at(&text, 5, &chars(""), 6));
    assert!(matches_at(&text, 0, &chars(""), 0));
}

#[test]
fn prefix_suffix_and_infix() {
    let text = chars("target/debug");
    assert!(starts_with(&text, "target/"));
    assert!(starts_with(&text, ""));
    assert!(!starts_with(&text, "arget"));
    assert!(!starts_with(&chars("tar"), "target/"));
    assert!(ends_with(&text, text.len(), &chars("debug")));
    assert!(ends_with(&text, 6, &chars("target")));
    assert!(!ends_with(&text, text.len(), &chars("target")));
    assert!(contains(&text, "t/d"));
    assert!(contains(&text, ""));
    assert!(contains(&text, "target/debug"));
    assert!(!contains(&text, "target/debug/"));
    assert!(!contains(&chars(""), "x"));
    assert!(contains(&chars(""), ""));
}

#[test]
fn equal_texts() {
    assert!(same_text("blob", "blob"));
    assert!(same_text("", ""));
    assert!(!same_text("blob", "blo"));
    assert!(!same_text("blob", "blub"));
    assert!(!same_text("", "a"));
}

#[test]
fn counting_and_finding() {
    let text = chars("a/b/c");
    assert_eq!(count_char(&text, 5, '/'), 2);
    assert_eq!(count_char(&text, 3, '/'), 1);
    assert_eq!(count_char(&text, 0, '/'), 0);
    assert_eq!(find_char(&text, 5, '/'), 1);
    assert_eq!(find_char(&text, 5, 'c'), 4);
    assert_eq!(find_char(&text, 5, 'x'), 5);
    assert_eq!(find_char(&text, 1, '/'), 1);
}

#[test]
fn trimming_a_range() {
    let text = chars("  a b\t\n");
    assert_eq!(trim_bounds(&text, 0, 7), (2, 5));
    assert_eq!(trim_bounds(&text, 3, 7), (4, 5));
    assert_eq!(trim_bounds(&text, 0, 2), (2, 2));
    assert_eq!(trim_bounds(&text, 5, 7), (7, 7));
    assert_eq!(trim_bounds(&text, 2, 5), (2, 5));
}

#[test]
fn trim_is_what_the_standard_library_does() {
    for sample in ["", " ", "a", " a ", "\u{2003}x y\u{3000}\n", "\t\r\n", "é ", " 日本 語 "] {
        assert_eq!(trim(sample), sample.trim());
    }
}

#[test]
fn slices_count_characters() {
    assert_eq!(slice("aß語z", 1, 3), "ß語");
    assert_eq!(slice("abc", 0, 0), "");
    assert_eq!(slice("abc", 0, 3), "abc");
}

#[test]
fn trailing_repetitions_are_removed() {
    let git = chars(".git");
    assert_eq!(trailing_removed(&chars("repo.git"), 8, &git), 4);
    assert_eq!(trailing_removed(&chars("repo.git.git"), 12, &git), 4);
    assert_eq!(trailing_removed(&chars("repo.git.git"), 8, &git), 4);
    assert_eq!(trailing_removed(&chars("repo"), 4, &git), 4);
    assert_eq!(trailing_removed(&chars(".git"), 4, &git), 0);
    assert_eq!(trailing_removed(&chars("abc"), 3, &chars("")), 3);
    for sample in ["a.git", "a.git.git.git", "git", ".gi", "", ".git.gitx"] {
        let text = chars(sample);
        let kept = trailing_removed(&text, text.len(), &git);
        assert_eq!(&sample[..kept], sample.trim_end_matches(".git"));
    }
}

#[test]
fn signed_numbers_as_the_standard_library_reads_them() {
    let samples = [
        "0",
        "-0",
        "+0",
        "000",
        "42",
        "-42",
        "+42",
        "2147483647",
        "2147483648",
        "-2147483648",
        "-2147483649",
        "99999999999999999999999",
        "",
        "+",
        "-",
        "+-1",
        "1 ",
        " 1",
        "1a",
        "１",
        "0x10",
        "1_000",
    ];
    for sample in samples {
        assert_eq!(parse_i32(sample), sample.parse::<i32>().ok(), "{:?}", sample);
    }
}

#[test]
fn exact_values_of_signed_numbers() {
    assert_eq!(parse_i32("0"), Some(0));
    assert_eq!(parse_i32("4999"), Some(4999));
    assert_eq!(parse_i32("-17"), Some(-17));
    assert_eq!(parse_i32("2147483647"), Some(i32::MAX));
    assert_eq!(parse_i32("-2147483648"), Some(i32::MIN));
    assert_eq!(parse_i32("2147483648"), None);
    assert_eq!(parse_i32("abc"), None);
}

#[test]
fn sizes_over_a_limit() {
    assert!(exceeds("1000001", 1_000_000));
    assert!(!exceeds("1000000", 1_000_000));
    assert!(!exceeds("0", 1_000_000));
    assert!(exceeds("+1000001", 1_000_000));
    assert!(exceeds("0001000001", 1_000_000));
    assert!(exceeds("18446744073709551616", 1_000_000));
    assert!(exceeds("99999999999999999999999999999999", 1_000_000));
    assert!(!exceeds("-1000001", 1_000_000));
    assert!(!exceeds("1000001 ", 1_000_000));
    assert!(!exceeds("10000x01", 1_000_000));
    assert!(!exceeds("", 1_000_000));
    assert!(!exceeds("+", 1_000_000));
    assert!(exceeds("1", 0));
    assert!(!exceeds("0", 0));
    assert!(!exceeds("4294967295", u32::MAX));
    assert!(exceeds("4294967296", u32::MAX));
}
