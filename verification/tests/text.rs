use email::text::{
    decimal_string, join, join_numbers, replace, split_on_char, str_eq, trim, trim_matches_char,
};

#[test]
fn trimming() {
    assert_eq!(trim("  a b \t\n"), "a b");
    assert_eq!(trim("\u{3000}x\u{a0}"), "x");
    assert_eq!(trim(""), "");
    assert_eq!(trim_matches_char("..a.b..", '.').into_iter().collect::<String>(), "a.b");
}

#[test]
fn replacing_and_joining() {
    assert_eq!(replace("a<x>b<x>", "<x>", "-"), "a-b-");
    assert_eq!(replace("aaa", "aa", "b"), "ba");
    assert_eq!(join(&vec!["a".to_string(), "b".to_string()], ", "), "a, b");
    assert_eq!(join_numbers(&vec![1, 22, 333], ","), "1,22,333");
    assert_eq!(decimal_string(1234567890), "1234567890");
}

#[test]
fn splitting_and_comparing() {
    assert_eq!(split_on_char("a b  c", ' '), vec!["a", "b", "", "c"]);
    assert!(str_eq("abc", "abc"));
    assert!(!str_eq("abc", "abd"));
}
