use yacrypt::utils::{compute_fingerprint, escape_aad_field};

#[test]
fn fingerprint_deterministic() {
    let fp1 = compute_fingerprint(&[0xFFu8; 32]);
    let fp2 = compute_fingerprint(&[0xFFu8; 32]);
    assert_eq!(fp1, fp2);
    assert_eq!(fp1.len(), 64);
    assert!(fp1.chars().all(|c| c.is_ascii_hexdigit()));
}

#[test]
fn fingerprint_different_input() {
    let fp1 = compute_fingerprint(&[0x00u8; 32]);
    let fp2 = compute_fingerprint(&[0x01u8; 32]);
    assert_ne!(fp1, fp2);
}

#[test]
fn escape_aad_field_removes_special() {
    assert_eq!(escape_aad_field("hello|world"), "hello_world");
    assert_eq!(escape_aad_field("line\nbreak"), "line_break");
    assert_eq!(escape_aad_field("cr\rchar"), "cr_char");
    assert_eq!(escape_aad_field("null\0byte"), "null_byte");
    assert_eq!(escape_aad_field("normal text"), "normal text");
}

#[test]
fn escape_aad_field_empty() {
    assert_eq!(escape_aad_field(""), "");
}
