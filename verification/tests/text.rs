use mg::text::{concat_str, contains_char, copy_all, extend_from, join, starts_with, str_eq};

#[test]
fn join_puts_the_separator_between_neighbours() {
    let parts = vec!["a".to_string(), "b".to_string(), "c".to_string()];
    assert_eq!(join(&parts, " "), "a b c");
    assert_eq!(join(&parts, ", "), "a, b, c");
    assert_eq!(join(&parts[..1], " "), "a");
    assert_eq!(join(&[], " "), "");
    assert_eq!(join(&["".to_string(), "".to_string()], "-"), "-");
}

#[test]
fn strings_are_equal_where_their_characters_are() {
    assert!(str_eq("", ""));
    assert!(str_eq("add", "add"));
    assert!(!str_eq("add", "ad"));
    assert!(!str_eq("add", "adD"));
    assert!(str_eq("é✅", "é✅"));
    assert!(!str_eq("é", "e"));
}

#[test]
fn concat_and_copies() {
    assert_eq!(concat_str("ab", "cd"), "abcd");
    assert_eq!(concat_str("", ""), "");
    let src = vec!["x".to_string(), "y".to_string()];
    assert_eq!(copy_all(&src), src);
    let mut dst = vec!["w".to_string()];
    extend_from(&mut dst, &src);
    assert_eq!(dst, vec!["w", "x", "y"]);
}

#[test]
fn characters_are_found() {
    assert!(starts_with("-D", '-'));
    assert!(!starts_with("D-", '-'));
    assert!(!starts_with("", '-'));
    assert!(starts_with("✅ ok", '✅'));
    assert!(contains_char("a@b", '@'));
    assert!(!contains_char("ab", '@'));
    assert!(!contains_char("", '@'));
}
