use translator_bot::language::{resolve_target, RUSSIAN, THAI};
use translator_bot::text::{decimal_string, same_text};

#[test]
fn russian_is_translated_into_thai() {
    assert_eq!(resolve_target("ru"), "th");
    assert_eq!(resolve_target(RUSSIAN), THAI);
}

#[test]
fn every_other_language_is_translated_into_russian() {
    for detected in ["en", "th", "de", "fr", "zh", "uk", "ja"] {
        assert_eq!(resolve_target(detected), "ru", "detected {detected}");
    }
}

#[test]
fn only_the_exact_code_counts_as_russian() {
    for detected in ["", "RU", "Ru", "ru ", " ru", "r", "rus", "ru-RU", "ру"] {
        assert_eq!(resolve_target(detected), "ru", "detected {detected:?}");
    }
}

#[test]
fn target_is_never_the_detected_language() {
    for detected in ["ru", "th", "en", "", "xx"] {
        assert_ne!(resolve_target(detected), detected);
    }
}

#[test]
fn language_codes_are_the_two_letter_codes() {
    assert_eq!(RUSSIAN, "ru");
    assert_eq!(THAI, "th");
}

#[test]
fn decimal_string_writes_single_digits() {
    let digits = ["0", "1", "2", "3", "4", "5", "6", "7", "8", "9"];
    for (n, digit) in digits.iter().enumerate() {
        assert_eq!(decimal_string(n as u64), *digit);
    }
}

#[test]
fn decimal_string_writes_longer_numbers() {
    assert_eq!(decimal_string(10), "10");
    assert_eq!(decimal_string(42), "42");
    assert_eq!(decimal_string(100), "100");
    assert_eq!(decimal_string(909), "909");
    assert_eq!(decimal_string(123456789), "123456789");
    assert_eq!(decimal_string(1_000_000_007), "1000000007");
}

#[test]
fn decimal_string_writes_the_largest_number() {
    assert_eq!(decimal_string(u64::MAX), "18446744073709551615");
}

#[test]
fn decimal_string_agrees_with_the_standard_library() {
    let mut n: u64 = 1;
    for _ in 0..64 {
        assert_eq!(decimal_string(n), n.to_string());
        assert_eq!(decimal_string(n - 1), (n - 1).to_string());
        n = n.wrapping_mul(3).wrapping_add(7);
    }
}

#[test]
fn same_text_compares_characters() {
    assert!(same_text("", ""));
    assert!(same_text("ru", "ru"));
    assert!(same_text("สวัสดี", "สวัสดี"));
    assert!(!same_text("ru", "th"));
    assert!(!same_text("ru", "ru "));
    assert!(!same_text("ru", "r"));
    assert!(!same_text("", "x"));
}
