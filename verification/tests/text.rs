use tenant_identity::text::str_eq;
use tenant_identity::text::usize_to_string;

#[test]
fn test_usize_to_string_exact_values() {
    assert_eq!("0", usize_to_string(0).as_str());
    assert_eq!("7", usize_to_string(7).as_str());
    assert_eq!("10", usize_to_string(10).as_str());
    assert_eq!("36", usize_to_string(36).as_str());
    assert_eq!("100", usize_to_string(100).as_str());
    assert_eq!("4095", usize_to_string(4095).as_str());
    assert_eq!("1000000", usize_to_string(1_000_000).as_str());
}

#[test]
fn test_str_eq_compares_contents() {
    assert!(str_eq("", ""));
    assert!(str_eq("abc", "abc"));
    assert!(!str_eq("abc", "abd"));
    assert!(!str_eq("abc", "ab"));
    assert!(!str_eq("", "a"));
}
