use erlup::text::{path_join, str_eq, u64_to_string};

#[test]
fn decimal_rendering_is_exact() {
    assert_eq!(u64_to_string(0), "0");
    assert_eq!(u64_to_string(7), "7");
    assert_eq!(u64_to_string(10), "10");
    assert_eq!(u64_to_string(42), "42");
    assert_eq!(u64_to_string(1234567890), "1234567890");
    assert_eq!(u64_to_string(u64::MAX), "18446744073709551615");
}

#[test]
fn path_join_inserts_one_separator() {
    assert_eq!(path_join("/c", "repos"), "/c/repos");
    assert_eq!(path_join("", "x"), "/x");
}

#[test]
fn str_eq_compares_by_characters() {
    assert!(str_eq("", ""));
    assert!(str_eq("erlup", "erlup"));
    assert!(!str_eq("erl", "erlc"));
    assert!(!str_eq("a", "b"));
    assert!(str_eq("naïve", "naïve"));
}
