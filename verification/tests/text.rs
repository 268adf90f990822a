use sunrise_launcher::text::{
    before, contains, contains_any, decimal, ends_with, eq_ignore_ascii_case, is_whitespace,
    rsplit_once, same, starts_with, strip_prefix, trim, trim_end_matches,
};

const SAMPLES: [&str; 9] = [
    "",
    " ",
    "abc",
    " a b ",
    "\u{3000}ä\u{85}",
    "aXbXc",
    "XX",
    "...",
    "Ünï…",
];

#[test]
fn white_space_is_that_of_unicode() {
    for code in 0..=0x10FFFFu32 {
        if let Some(c) = char::from_u32(code) {
            assert_eq!(is_whitespace(c), c.is_whitespace());
        }
    }
}

#[test]
fn searches_agree_with_the_standard_ones() {
    for text in SAMPLES {
        assert_eq!(trim(text), text.trim());
        assert_eq!(trim_end_matches(text, '.'), text.trim_end_matches('.'));
        for part in SAMPLES {
            assert_eq!(same(text, part), text == part);
            assert_eq!(starts_with(text, part), text.starts_with(part));
            assert_eq!(ends_with(text, part), text.ends_with(part));
            assert_eq!(contains(text, part), text.contains(part));
            assert_eq!(strip_prefix(text, part), text.strip_prefix(part));
            assert_eq!(rsplit_once(text, part), text.rsplit_once(part));
            if !part.is_empty() {
                assert_eq!(Some(before(text, part)), text.split(part).next());
            }
            assert_eq!(
                eq_ignore_ascii_case(text, part),
                text.eq_ignore_ascii_case(part)
            );
        }
    }
}

#[test]
fn overlapping_parts_split_at_the_last() {
    assert_eq!(rsplit_once("aXXXb", "XX"), "aXXXb".rsplit_once("XX"));
    assert_eq!(rsplit_once("a-b-c", "-"), Some(("a-b", "c")));
}

#[test]
fn one_of_many_parts_is_enough() {
    let parts = vec!["x".to_string(), "b".to_string()];
    assert!(contains_any("abc", &parts));
    assert!(!contains_any("ac", &parts));
    assert!(!contains_any("ac", &Vec::new()));
}

#[test]
fn ascii_case_is_ignored() {
    assert!(eq_ignore_ascii_case("aBc1", "AbC1"));
    assert!(!eq_ignore_ascii_case("ä", "Ä"));
    assert!(!eq_ignore_ascii_case("[", "{"));
}

#[test]
fn numbers_are_written_in_decimal() {
    for n in [0, 7, 10, 404, 1024, u64::MAX] {
        assert_eq!(decimal(n), n.to_string());
    }
}
