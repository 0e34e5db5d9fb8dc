use mtg_spoilers::dedup::normalize_name;
use mtg_spoilers::fetcher::extract_set_from_title;
use mtg_spoilers::text::{
    alphanumeric_only, chars_of, concat_str, contains, copy_str, prefix_before, replace_all, str_contains,
    str_eq, trim,
};

#[test]
fn replace_is_left_to_right_without_overlap() {
    assert_eq!(replace_all("aaa", "aa", "b"), "ba");
    assert_eq!(replace_all("i.redd.it/i.redd.it", "i.redd.it", "reddit.com"), "reddit.com/reddit.com");
    assert_eq!(replace_all("", "x", "y"), "");
    assert_eq!(replace_all("it's", "'", "''"), "it''s");
    assert_eq!(replace_all("abc", "abcd", "z"), "abc");
}

#[test]
fn contains_finds_substrings() {
    assert!(str_contains("new spoiler today", "spoiler"));
    assert!(!str_contains("new spoil today", "spoiler"));
    assert!(str_contains("anything", ""));
    assert!(!str_contains("", "a"));
    assert!(contains(&chars_of("abab"), &chars_of("bab")));
}

#[test]
fn trim_removes_unicode_white_space() {
    assert_eq!(trim("  Lightning Bolt \t"), "Lightning Bolt");
    assert_eq!(trim("\u{3000}x y\u{00A0}"), "x y");
    assert_eq!(trim("   "), "");
    assert_eq!(trim(""), "");
}

#[test]
fn case_mapping_is_unicode() {
    assert_eq!(normalize_name("ÆTHER Vial"), "æthervial");
    assert_eq!(extract_set_from_title("[mh3] x"), Some("MH3".to_string()));
    assert_eq!(extract_set_from_title("[ßx] y"), Some("SSX".to_string()));
}

#[test]
fn character_classes_are_unicode() {
    assert_eq!(alphanumeric_only("é7'"), "é7");
    assert_eq!(alphanumeric_only("M'H-3 ; DROP"), "MH3DROP");
    assert_eq!(trim("\u{2003}\nx\t"), "x");
}

#[test]
fn small_string_operations() {
    assert_eq!(prefix_before("a?b", '?'), "a");
    assert_eq!(prefix_before("ab", '?'), "ab");
    assert_eq!(concat_str("ab", "cd"), "abcd");
    assert_eq!(copy_str("xyz"), "xyz");
    assert!(str_eq("Verified", "Verified"));
    assert!(!str_eq("Verified", "verified"));
}
