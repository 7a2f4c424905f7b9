use base64::Engine;
use pkcs8::EncodePrivateKey;
use yacrypt::blob::unpack_encrypted_blob;
use yacrypt::error::CryptError;
use yacrypt::blob::pack_encrypted_blob;
use yacrypt::keystore::{backup_nonce_ok, build_keys, cmd_decrypt_backup, generate_backup_password};
use yacrypt::utils::compute_fingerprint;
use yacrypt::workflow::{cmd_decrypt_workflow, cmd_encrypt_workflow, unlock_private_key};

#[test]
fn build_keys_backs_up_both_keys() {
    let signing = [0x10u8; 32];
    let x_secret = [0x20u8; 32];
    let keys = build_keys(
        "Alice|Smith",
        "alice@example.com",
        "backup password 1",
        &signing,
        &x_secret,
        &[1u8; 16],
        &[2u8; 24],
        &[3u8; 16],
        &[4u8; 24],
    )
    .unwrap();
    let sk = ed25519_dalek::SigningKey::from_bytes(&signing);
    let vk = sk.verifying_key().to_bytes();
    let x_pub = x25519_dalek::PublicKey::from(&x25519_dalek::StaticSecret::from(x_secret)).to_bytes();
    let std = base64::engine::general_purpose::STANDARD;

    assert_eq!(keys.fingerprint, compute_fingerprint(&vk));
    assert_eq!(keys.signing_key, signing);
    assert_eq!(keys.public_key_text, std.encode(vk));
    assert_eq!(keys.x25519_public, x_pub);
    assert_eq!(keys.x25519_public_text, std.encode(x_pub));

    let blob = unpack_encrypted_blob(&keys.private_key_blob).unwrap();
    assert_eq!((blob.mem_kib, blob.t_cost, blob.p_cost), (65536, 2, 1));
    assert_eq!(blob.salt, vec![1u8; 16]);
    assert_eq!(blob.nonce, vec![2u8; 24]);
    let aad = format!("name=Alice_Smith|email=alice@example.com|fp={}", keys.fingerprint);
    assert_eq!(blob.aad, aad.as_bytes().to_vec());
    let x_blob = unpack_encrypted_blob(&keys.x25519_private_blob).unwrap();
    assert_eq!(x_blob.aad, format!("{}|type=x25519", aad).into_bytes());

    let der = cmd_decrypt_backup("backup password 1", &keys.private_key_blob).unwrap();
    assert_eq!(der, sk.to_pkcs8_der().unwrap().as_bytes().to_vec());
    assert_eq!(unlock_private_key("backup password 1", &keys.x25519_private_blob).unwrap(), x_secret);
}

#[test]
fn decrypt_backup_reports_bad_blob() {
    match cmd_decrypt_backup("pw", &[]) {
        Err(CryptError::Format(m)) => assert_eq!(m, "Invalid blob format: Format error: blob too small"),
        _ => panic!("expected a format error"),
    }
}

#[test]
fn decrypt_backup_reports_bad_costs() {
    let blob = yacrypt::blob::pack_encrypted_blob(256, 0, 1, &[0u8; 16], &[0u8; 24], b"", &[0u8; 16]);
    match cmd_decrypt_backup("pw", &blob) {
        Err(CryptError::Key(m)) => assert_eq!(m, "Argon2 t_cost 0 out of valid range [1, 100]"),
        _ => panic!("expected a key error"),
    }
}

#[test]
fn backup_password_is_url_safe_base64_of_48_bytes() {
    let a = generate_backup_password();
    let b = generate_backup_password();
    assert_eq!(a.len(), 64);
    assert!(a.chars().all(|c| c.is_ascii_alphanumeric() || c == '-' || c == '_'));
    assert_eq!(
        base64::engine::general_purpose::URL_SAFE_NO_PAD.decode(&a).unwrap().len(),
        48
    );
    assert_ne!(a, b);
}

#[test]
fn encrypt_workflow_then_decrypt_workflow() {
    let w = cmd_encrypt_workflow("note.txt", b"top secret", "Bob", "bob@example.com", "bob's password", None)
        .unwrap();
    let keys = w.keys.unwrap();
    let d = cmd_decrypt_workflow("bob's password", &keys.x25519_private_blob, &w.sealed).unwrap();
    assert_eq!(d.plaintext, b"top secret".to_vec());
    assert!(d.signed);
}

#[test]
fn encrypt_workflow_with_existing_key() {
    let x_secret = [0x66u8; 32];
    let x_pub = x25519_dalek::PublicKey::from(&x25519_dalek::StaticSecret::from(x_secret)).to_bytes();
    let text = base64::engine::general_purpose::STANDARD.encode(x_pub);
    let w = cmd_encrypt_workflow("n.txt", b"hi", "unused", "unused", "", Some(&text)).unwrap();
    assert!(w.keys.is_none());
    let d = yacrypt::workflow::open_sealed_file(&x_secret, &w.sealed).unwrap();
    assert_eq!(d.plaintext, b"hi".to_vec());
    assert!(!d.signed);
}

#[test]
fn backup_nonce_check_needs_no_derivation() {
    let short_nonce = pack_encrypted_blob(256, 1, 1, &[0u8; 16], &[0u8; 12], b"", &[0u8; 16]);
    assert!(!backup_nonce_ok("password", &short_nonce));
    let refused_costs = pack_encrypted_blob(256, 0, 1, &[0u8; 16], &[0u8; 12], b"", &[0u8; 16]);
    assert!(backup_nonce_ok("password", &refused_costs));
    let short_salt = pack_encrypted_blob(256, 1, 1, &[0u8; 4], &[0u8; 12], b"", &[0u8; 16]);
    assert!(backup_nonce_ok("password", &short_salt));
    let good = pack_encrypted_blob(256, 1, 1, &[0u8; 16], &[0u8; 24], b"", &[0u8; 16]);
    assert!(backup_nonce_ok("password", &good));
    assert!(backup_nonce_ok("password", b"not a blob"));
}
