use hostfetch::text::{repeat_str, str_eq, u64_to_string};

#[test]
fn decimal_rendering_of_small_numbers() {
    assert_eq!(u64_to_string(0), "0");
    assert_eq!(u64_to_string(7), "7");
    assert_eq!(u64_to_string(10), "10");
    assert_eq!(u64_to_string(90061), "90061");
}

#[test]
fn decimal_rendering_of_the_largest_value() {
    assert_eq!(u64_to_string(u64::MAX), "18446744073709551615");
}

#[test]
fn string_equality_is_exact() {
    assert!(str_eq("abc", "abc"));
    assert!(str_eq("", ""));
    assert!(!str_eq("abc", "abd"));
    assert!(!str_eq("abc", "abcd"));
    assert!(!str_eq("Abc", "abc"));
}

#[test]
fn repetition_builds_the_expected_text() {
    assert_eq!(repeat_str("-", 0), "");
    assert_eq!(repeat_str("-", 5), "-----");
    assert_eq!(repeat_str("ab", 3), "ababab");
}
