use teleport_reader::session_id::validate_session_id;

#[test]
fn validate_session_id_valid() {
    assert!(validate_session_id("session_01QJaJSUgfY6khmFTzJaMqph").is_ok());
    assert!(validate_session_id("session_01NVvyq9UPuvtLMPpjdd3dNQ").is_ok());
}

#[test]
fn validate_session_id_invalid_prefix() {
    let err = validate_session_id("ses_01QJaJSUgfY6khmFTzJaMqph").unwrap_err();
    assert!(err.message().contains("Invalid session ID format"));
}

#[test]
fn validate_session_id_too_short() {
    let err = validate_session_id("session_01").unwrap_err();
    assert!(err.message().contains("Invalid session ID format"));
}

#[test]
fn validate_session_id_empty() {
    let err = validate_session_id("").unwrap_err();
    assert!(err.message().contains("Invalid session ID format"));
}

#[test]
fn validate_session_id_no_prefix() {
    let err = validate_session_id("01QJaJSUgfY6khmFTzJaMqph").unwrap_err();
    assert!(err.message().contains("Invalid session ID format"));
}

#[test]
fn session_id_exactly_eight_after_prefix() {
    assert!(validate_session_id("session_12345678").is_ok());
    assert!(validate_session_id("session_1234567").is_err());
}

#[test]
fn session_id_counts_characters_not_bytes() {
    assert!(validate_session_id("session_éééééééé").is_ok());
    assert!(validate_session_id("session_éééé").is_err());
}

#[test]
fn session_id_newline_within_first_eight_is_refused() {
    assert!(validate_session_id("session_1234\n5678").is_err());
    assert!(validate_session_id("session_12345678\n").is_ok());
}

#[test]
fn session_id_error_keeps_the_id() {
    let err = validate_session_id("bogus").unwrap_err();
    assert_eq!(err.id, "bogus");
    assert!(err.message().contains("'bogus'"));
}
