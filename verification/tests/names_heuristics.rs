use collapse_find_obf::names::{is_random_name, library_name};
use collapse_find_obf::text::{
    num_to_string, replace_braces, simple_name, split_slash, to_ascii_lower, truncate_string,
};

#[test]
fn random_name_repeated_char() {
    // length 10, a single character accounts for 100%
    assert!(is_random_name("aaaaaaaaaa"));
}

#[test]
fn random_name_two_letters() {
    assert!(is_random_name("ab"));
}

#[test]
fn random_name_rejects_real_word() {
    assert!(!is_random_name("Transformer"));
}

#[test]
fn random_name_dollar_exempt() {
    // synthetic/inner-class names are never classified random
    assert!(!is_random_name("aaaaa$aaaaa"));
    assert!(!is_random_name("a$1"));
}

#[test]
fn random_name_underscore_stub() {
    assert!(is_random_name("_0"));
    assert!(is_random_name("_u"));
    assert!(!is_random_name("_full"));
}

#[test]
fn random_name_low_variety() {
    // length 10 with only two distinct characters
    assert!(is_random_name("lIlIlIlIlI"));
}

#[test]
fn random_name_digit_heavy() {
    // length 10 with 9 digits: digits exceed half the length
    assert!(is_random_name("a123456789"));
}

#[test]
fn random_name_case_soup_without_vowels() {
    // 5 uppercase, 5 lowercase, no vowels
    assert!(is_random_name("XbKcQdWfZg"));
}

#[test]
fn random_name_empty_is_not_random() {
    assert!(!is_random_name(""));
}

#[test]
fn library_prefixes_recognized() {
    assert!(library_name("java/lang/object"));
    assert!(library_name("net/minecraft/client/main"));
    assert!(library_name("com/example/mixins/injected"));
    assert!(!library_name("com/example/plugin"));
}

#[test]
fn split_and_simple_name() {
    let parts = split_slash("a/b/C");
    assert_eq!(parts, vec!["a".to_string(), "b".to_string(), "C".to_string()]);
    assert_eq!(simple_name("java/lang/Object"), "Object");
    assert_eq!(simple_name("Plain"), "Plain");
    assert_eq!(split_slash(""), vec!["".to_string()]);
}

#[test]
fn truncation_keeps_short_and_cuts_long() {
    assert_eq!(truncate_string("short", 20), "short");
    assert_eq!(truncate_string("abcdefghij", 4), "abcd...");
}

#[test]
fn ascii_lowering() {
    assert_eq!(to_ascii_lower("Java/Lang/OBJECT"), "java/lang/object");
    // non-ASCII characters pass through unchanged
    assert_eq!(to_ascii_lower("AБВ"), "aБВ");
}

#[test]
fn decimal_rendering() {
    assert_eq!(num_to_string(0), "0");
    assert_eq!(num_to_string(7), "7");
    assert_eq!(num_to_string(105), "105");
    assert_eq!(num_to_string(98765), "98765");
}

#[test]
fn brace_replacement() {
    assert_eq!(replace_braces("Risk: {}/10", "7"), "Risk: 7/10");
    assert_eq!(replace_braces("{} and {}", "x"), "x and x");
    assert_eq!(replace_braces("none", "x"), "none");
}
