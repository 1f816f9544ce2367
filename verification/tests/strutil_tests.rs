use openvscode_farm::strutil::{replace_all, split_spaces, str_eq, trim};

#[test]
fn trim_removes_leading_and_trailing_whitespace() {
    assert_eq!(trim("  a b \n"), "a b");
    assert_eq!(trim("\t\r\n "), "");
    assert_eq!(trim(""), "");
    assert_eq!(trim("x"), "x");
}

#[test]
fn split_spaces_matches_single_space_splitting() {
    assert_eq!(split_spaces("a b"), vec!["a".to_string(), "b".to_string()]);
    assert_eq!(split_spaces(""), vec!["".to_string()]);
    assert_eq!(split_spaces("a  b"), vec!["a".to_string(), "".to_string(), "b".to_string()]);
    assert_eq!(split_spaces(" a"), vec!["".to_string(), "a".to_string()]);
    assert_eq!(split_spaces("a "), vec!["a".to_string(), "".to_string()]);
}

#[test]
fn replace_all_replaces_every_occurrence() {
    assert_eq!(replace_all("a{p}b{p}", "{p}", "1"), "a1b1");
    assert_eq!(replace_all("none", "{p}", "1"), "none");
    assert_eq!(replace_all("", "{p}", "1"), "");
    assert_eq!(replace_all("aaa", "aa", "b"), "ba");
}

#[test]
fn str_eq_compares_contents() {
    assert!(str_eq("abc", "abc"));
    assert!(!str_eq("abc", "abd"));
    assert!(!str_eq("abc", "ab"));
    assert!(str_eq("", ""));
}
