use condo::text::{split, starts_with, trim_start};

#[test]
fn prefix_is_told() {
    assert!(starts_with("http://x", "http://"));
    assert!(starts_with("http://", "http://"));
    assert!(!starts_with("http:/", "http://"));
    assert!(!starts_with("ftp://x", "http://"));
    assert!(starts_with("anything", ""));
    assert!(starts_with("äöü", "äö"));
}

#[test]
fn leading_characters_are_trimmed() {
    assert_eq!(trim_start("///a/b", '/'), "a/b");
    assert_eq!(trim_start("a/b/", '/'), "a/b/");
    assert_eq!(trim_start("///", '/'), "");
    assert_eq!(trim_start("", '/'), "");
}

#[test]
fn text_is_split_at_each_separator() {
    assert_eq!(split("a/b/c", '/'), vec!["a", "b", "c"]);
    assert_eq!(split("abc", '/'), vec!["abc"]);
    assert_eq!(split("", '/'), vec![""]);
    assert_eq!(split("a//b/", '/'), vec!["a", "", "b", ""]);
    assert_eq!(split("/", '/'), vec!["", ""]);
    assert_eq!(split("é/ü", '/'), vec!["é", "ü"]);
}
