use yacrypt::password::{cmd_generate_strong_password, PASSWORD_CHARSET};

#[test]
fn password_length_matches_request() {
    assert!(!PASSWORD_CHARSET.is_empty());
    assert!(PASSWORD_CHARSET.len() <= 256);
}

#[test]
fn password_rejects_zero_length() {
    assert!(cmd_generate_strong_password(0).is_err());
}

#[test]
fn password_rejects_excessive_length() {
    assert!(cmd_generate_strong_password(4097).is_err());
}
