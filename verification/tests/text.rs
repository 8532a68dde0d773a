use chasam::text::{contains_chars, contains_ignoring_case};

fn chars(s: &str) -> Vec<char> {
    s.chars().collect()
}

#[test]
fn contains_chars_finds_parts() {
    assert!(contains_chars(&chars("hello"), &chars("ell")));
    assert!(contains_chars(&chars("hello"), &chars("hello")));
    assert!(contains_chars(&chars("hello"), &chars("")));
    assert!(contains_chars(&chars(""), &chars("")));
    assert!(!contains_chars(&chars("hello"), &chars("lol")));
    assert!(!contains_chars(&chars("he"), &chars("hello")));
    assert!(contains_chars(&chars("aab"), &chars("ab")));
}

#[test]
fn contains_ignoring_case_lowers_both() {
    assert!(contains_ignoring_case("Holiday.PNG", "day.png"));
    assert!(contains_ignoring_case("holiday.png", "DAY"));
    assert!(!contains_ignoring_case("holiday.png", "night"));
    assert!(contains_ignoring_case("ÄPFEL", "äpf"));
}
