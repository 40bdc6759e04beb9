use agforge::utils::{str_equals, unquote};

#[test]
fn unquote_removes_one_matching_pair() {
    assert_eq!(unquote("'true'"), "true");
    assert_eq!(unquote("\"true\""), "true");
    assert_eq!(unquote("''true''"), "'true'");
    assert_eq!(unquote("\"'false'\""), "'false'");
    assert_eq!(unquote("''"), "");
    assert_eq!(unquote("\"\""), "");
}

#[test]
fn unquote_leaves_other_text() {
    assert_eq!(unquote("true"), "true");
    assert_eq!(unquote("'"), "'");
    assert_eq!(unquote("\""), "\"");
    assert_eq!(unquote("'true\""), "'true\"");
    assert_eq!(unquote(""), "");
    assert_eq!(unquote("'é'"), "é");
}

#[test]
fn str_equals_compares_characters() {
    assert!(str_equals("abc", "abc"));
    assert!(str_equals("", ""));
    assert!(!str_equals("abc", "abd"));
    assert!(!str_equals("abc", "ab"));
}
