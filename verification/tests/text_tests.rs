use cta_bot::text::{chars_of, decimal_string, find_text, join, parse_i32, position_of, starts_with};

#[test]
fn decimal_string_writes_signs_and_limits() {
    assert_eq!(decimal_string(0), "0");
    assert_eq!(decimal_string(7), "7");
    assert_eq!(decimal_string(10), "10");
    assert_eq!(decimal_string(-1), "-1");
    assert_eq!(decimal_string(1705341600), "1705341600");
    assert_eq!(decimal_string(i64::MAX), i64::MAX.to_string());
    assert_eq!(decimal_string(i64::MIN), i64::MIN.to_string());
}

#[test]
fn parse_i32_reads_what_std_reads() {
    for s in [
        "0", "42", "-42", "+42", "007", "2147483647", "-2147483648", "2147483648", "-2147483649",
        "", "+", "-", "4 2", " 42", "42 ", "4a", "--4", "+-4", "99999999999999999999", "０",
    ] {
        assert_eq!(parse_i32(s), s.parse::<i32>().ok(), "input {s:?}");
    }
}

#[test]
fn join_puts_the_separator_between() {
    let none: Vec<String> = Vec::new();
    assert_eq!(join(&none, ","), "");
    assert_eq!(join(&["a".to_string()], ","), "a");
    assert_eq!(join(&["a".to_string(), "b".to_string(), "".to_string()], ", "), "a, b, ");
}

#[test]
fn find_text_gives_the_first_occurrence() {
    let hay = chars_of("arrivals:refresh/stationName/Halsted/stationName/x");
    assert_eq!(find_text(&hay, &chars_of("/stationName/")), Some(16));
    assert_eq!(find_text(&hay, &chars_of("nowhere")), None);
    assert_eq!(find_text(&hay, &chars_of("")), Some(0));
    assert_eq!(find_text(&chars_of(""), &chars_of("")), Some(0));
    assert_eq!(find_text(&chars_of("ab"), &chars_of("abc")), None);
    assert_eq!(find_text(&chars_of("aab"), &chars_of("ab")), Some(1));
}

#[test]
fn starts_with_and_position_of() {
    assert!(starts_with(&chars_of("bus_arrivals:select/1"), &chars_of("bus_arrivals:select")));
    assert!(!starts_with(&chars_of("bus"), &chars_of("bus_arrivals:select")));
    assert!(starts_with(&chars_of("bus"), &chars_of("")));
    assert_eq!(position_of(&chars_of("95 -109"), '-'), 3);
    assert_eq!(position_of(&chars_of("none"), '-'), 4);
}

#[test]
fn chars_of_gives_the_characters() {
    let s = "Häagen — 95th/Dan Ryan";
    assert_eq!(chars_of(s), s.chars().collect::<Vec<char>>());
}
