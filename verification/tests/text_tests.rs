use experiments::knowledge::{meets_threshold, numbered};
use experiments::text::{
    chars_of, contains_chars, is_whitespace, mentions_long_word_exec, str_eq, u64_to_decimal,
};

#[test]
fn decimal_rendering_matches_format() {
    for n in [0u64, 7, 10, 99, 100, 1234, 1_000_000, u64::MAX] {
        assert_eq!(u64_to_decimal(n), format!("{}", n));
    }
}

#[test]
fn numbered_appends_the_number() {
    assert_eq!(numbered("condition_", 42), "condition_42");
    assert_eq!(numbered("task_", 0), "task_0");
}

#[test]
fn substring_search() {
    let hay = chars_of("the goods were delivered");
    assert!(contains_chars(&hay, &chars_of("deliver")));
    assert!(contains_chars(&hay, &chars_of("")));
    assert!(!contains_chars(&hay, &chars_of("paid")));
    assert!(!contains_chars(&chars_of("ab"), &chars_of("abc")));
    assert!(contains_chars(&chars_of("überfällig"), &chars_of("fäll")));
}

#[test]
fn long_words_of_the_outcome() {
    let answer = chars_of("the order has shipped");
    assert!(mentions_long_word_exec(&answer, &chars_of("order  shipped")));
    assert!(!mentions_long_word_exec(&answer, &chars_of("has the")));
    // words of three bytes or fewer do not count
    assert!(!mentions_long_word_exec(&chars_of("fee due now"), &chars_of("fee due now")));
    // a two-character word of five bytes does count
    assert!(mentions_long_word_exec(&chars_of("ok éé"), &chars_of("\téé\n")));
    assert!(!mentions_long_word_exec(&answer, &chars_of("")));
}

#[test]
fn string_equality() {
    assert!(str_eq("stream", "stream"));
    assert!(!str_eq("stream", "Stream"));
}

#[test]
fn threshold_is_inclusive() {
    assert!(meets_threshold(8000, 8000));
    assert!(!meets_threshold(7999, 8000));
}

#[test]
fn whitespace_agrees_with_std() {
    for u in 0..=0x10FFFFu32 {
        if let Some(c) = char::from_u32(u) {
            assert_eq!(is_whitespace(c), c.is_whitespace(), "code point {:#x}", u);
        }
    }
}
