use checks::admin_no_group_auth::is_admin_name;
use checks::text::{chars_of, contains_chars, decimal_string, join, str_contains, str_ends_with, str_eq};

#[test]
fn names_are_lowercased_before_matching() {
    assert!(is_admin_name("NEW_ADMIN"));
    assert!(is_admin_name("ProjectOwner"));
    // "ÀDMIN" lowercases to "àdmin", which does not contain "admin".
    assert!(!is_admin_name("ÀDMIN"));
}

#[test]
fn substring_search() {
    assert!(str_contains("pending_owner", "owner"));
    assert!(str_contains("owner", "owner"));
    assert!(str_contains("abc", ""));
    assert!(!str_contains("own", "owner"));
    assert!(!str_contains("", "a"));
    assert!(str_contains("héllo wörld", "ö"));
    assert!(contains_chars(&vec!['a', 'b', 'a', 'b', 'c'], &vec!['a', 'b', 'c']));
    assert!(!contains_chars(&vec!['a', 'b'], &vec!['b', 'a']));
}

#[test]
fn suffix_and_equality() {
    assert!(str_ends_with("soroban_sdk::Address", "Address"));
    assert!(!str_ends_with("AddressBook", "Address"));
    assert!(str_ends_with("x", ""));
    assert!(str_eq("set", "set"));
    assert!(!str_eq("set", "sets"));
    assert_eq!(chars_of("añb"), vec!['a', 'ñ', 'b']);
}

#[test]
fn joining() {
    let parts = vec!["a".to_string(), "b".to_string(), "c".to_string()];
    assert_eq!(join(&parts, "::"), "a::b::c");
    assert_eq!(join(&vec!["solo".to_string()], ", "), "solo");
    assert_eq!(join(&vec![], ", "), "");
}

#[test]
fn decimal_notation() {
    assert_eq!(decimal_string(0), "0");
    assert_eq!(decimal_string(7), "7");
    assert_eq!(decimal_string(10), "10");
    assert_eq!(decimal_string(1234), "1234");
    assert_eq!(decimal_string(usize::MAX), usize::MAX.to_string());
}
