use tenant_identity::assertion::assert_argument_equals;
use tenant_identity::assertion::assert_argument_false;
use tenant_identity::assertion::assert_argument_length_range;
use tenant_identity::assertion::assert_argument_max_length;
use tenant_identity::assertion::assert_argument_not_empty;
use tenant_identity::assertion::assert_argument_not_equals;
use tenant_identity::assertion::assert_argument_range;
use tenant_identity::assertion::assert_argument_true;
use tenant_identity::assertion::assert_not_state;
use tenant_identity::assertion::assert_state;
use tenant_identity::assertion::assert_true;

#[test]
fn test_assert_argument_not_empty_messages() {
    assert!(assert_argument_not_empty("x", "thing").is_ok());
    let err = assert_argument_not_empty("", "thing").unwrap_err();
    assert_eq!(err.message(), "The thing is required");
}

#[test]
fn test_assert_argument_max_length_messages() {
    assert!(assert_argument_max_length("ab", 2, "code").is_ok());
    let err = assert_argument_max_length("abc", 2, "code").unwrap_err();
    assert_eq!(err.message(), "The code must be 2 characters or less");
}

#[test]
fn test_assert_argument_length_range_messages() {
    assert!(assert_argument_length_range("ab", 1, 3, "code").is_ok());
    let err = assert_argument_length_range("abcd", 1, 3, "code").unwrap_err();
    assert_eq!(
        err.message(),
        "The code must be long between 1 and 3 characters"
    );
    let exact = assert_argument_length_range("abcd", 3, 3, "code").unwrap_err();
    assert_eq!(exact.message(), "The code must be 3 characters long");
}

#[test]
fn test_assert_argument_equals_messages() {
    assert!(assert_argument_equals("on", "on", "mode").is_ok());
    let err = assert_argument_equals("off", "on", "mode").unwrap_err();
    assert_eq!(err.message(), "The mode must be equal to on");
}

#[test]
fn test_assert_argument_not_equals_messages() {
    assert!(assert_argument_not_equals("off", "on", "mode").is_ok());
    let err = assert_argument_not_equals("on", "on", "mode").unwrap_err();
    assert_eq!(err.message(), "The mode must be different from on.");
}

#[test]
fn test_assert_argument_true_and_false_messages() {
    assert!(assert_argument_true(true, "flag").is_ok());
    let err = assert_argument_true(false, "flag").unwrap_err();
    assert_eq!(err.message(), "The flag must be true");

    assert!(assert_argument_false(false, "flag").is_ok());
    let err = assert_argument_false(true, "flag").unwrap_err();
    assert_eq!(err.message(), "The flag must be false");
}

#[test]
fn test_assert_argument_range_messages() {
    assert!(assert_argument_range(128, 0, 255, "octet").is_ok());
    assert!(assert_argument_range(0, 0, 255, "octet").is_ok());
    assert!(assert_argument_range(255, 0, 255, "octet").is_ok());
    let err = assert_argument_range(256, 0, 255, "octet").unwrap_err();
    assert_eq!(err.message(), "The octet must be between 0 and 255.");
    let err = assert_argument_range(9, 10, 4095, "size").unwrap_err();
    assert_eq!(err.message(), "The size must be between 10 and 4095.");
}

#[test]
fn test_assert_true_passes_message_through() {
    assert!(assert_true(true, "unused").is_ok());
    let err = assert_true(false, "the condition failed").unwrap_err();
    assert_eq!(err.message(), "the condition failed");
}

#[test]
fn test_assert_state_messages() {
    assert!(assert_state(true, "must hold").is_ok());
    let err = assert_state(false, "must hold").unwrap_err();
    assert_eq!(err.message(), "must hold");

    assert!(assert_not_state(false, "must not hold").is_ok());
    let err = assert_not_state(true, "must not hold").unwrap_err();
    assert_eq!(err.message(), "must not hold");
}
