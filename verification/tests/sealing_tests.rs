use ed25519_dalek::Signer;
use sha2::Digest;
use yacrypt::blob::pack_encrypted_blob;
use yacrypt::crypto::{derive_key, derive_symmetric_key_from_shared_secret, encrypt_with_aad};
use yacrypt::error::CryptError;
use yacrypt::file_ops::{cmd_encrypt_file_with_key, encrypt_for_recipient, seal_file_for_recipient, FILE_KEY_INFO};
use yacrypt::pubenc::{pack_pubenc_blob, unpack_pubenc_blob, PubencSignature};
use yacrypt::workflow::{cmd_decrypt_workflow, open_sealed_file, unlock_private_key};

fn x25519_pub(secret: [u8; 32]) -> [u8; 32] {
    x25519_dalek::PublicKey::from(&x25519_dalek::StaticSecret::from(secret)).to_bytes()
}

fn low_cost_backup(password: &str, secret: &[u8]) -> Vec<u8> {
    let salt = [0x33u8; 16];
    let nonce = [0x44u8; 24];
    let aad = b"name=t|email=t@t|fp=00|type=x25519";
    let key = derive_key(password, &salt, 256, 1, 1).unwrap();
    let ct = encrypt_with_aad(&key, &nonce, secret, aad).unwrap();
    pack_encrypted_blob(256, 1, 1, &salt, &nonce, aad, &ct)
}

#[test]
fn sealed_file_layout_and_aad() {
    let recipient_secret = [7u8; 32];
    let eph = [9u8; 32];
    let nonce = [1u8; 24];
    let sealed = seal_file_for_recipient(
        &x25519_pub(recipient_secret),
        &eph,
        &nonce,
        "a|b.txt",
        b"hello",
        None,
    )
    .unwrap();
    let p = unpack_pubenc_blob(&sealed).unwrap();
    assert_eq!(p.ephemeral_pub, x25519_pub(eph));
    assert_eq!(p.nonce, nonce);
    assert!(p.signature.is_none());
    let expected_aad = format!("file=a_b.txt|ephemeral_pub={}", hex::encode(x25519_pub(eph)));
    assert_eq!(p.aad, expected_aad.into_bytes());
    assert_eq!(p.ciphertext.len(), 5 + 16);
    assert_eq!(&sealed[0..6], b"SCFv1\x00");
}

#[test]
fn sealed_file_key_is_hkdf_of_shared_secret() {
    let recipient_secret = [7u8; 32];
    let eph = [9u8; 32];
    let nonce = [1u8; 24];
    let sealed =
        seal_file_for_recipient(&x25519_pub(recipient_secret), &eph, &nonce, "f", b"data", None)
            .unwrap();
    let p = unpack_pubenc_blob(&sealed).unwrap();
    let shared = x25519_dalek::StaticSecret::from(recipient_secret)
        .diffie_hellman(&x25519_dalek::PublicKey::from(p.ephemeral_pub));
    let key = derive_symmetric_key_from_shared_secret(shared.as_bytes(), &p.ephemeral_pub, &FILE_KEY_INFO);
    let expected = encrypt_with_aad(&key, &nonce, b"data", &p.aad).unwrap();
    assert_eq!(p.ciphertext, expected);
    assert_eq!(&FILE_KEY_INFO, b"yacrypt-file-encryption-v1");
}

#[test]
fn sealed_file_opens_unsigned() {
    let secret = [7u8; 32];
    let sealed =
        seal_file_for_recipient(&x25519_pub(secret), &[9u8; 32], &[1u8; 24], "f.txt", b"plain", None)
            .unwrap();
    let d = open_sealed_file(&secret, &sealed).unwrap();
    assert_eq!(d.plaintext, b"plain".to_vec());
    assert!(!d.signed);
}

#[test]
fn sealed_file_opens_signed() {
    let secret = [7u8; 32];
    let signing = [5u8; 32];
    let sealed = seal_file_for_recipient(
        &x25519_pub(secret),
        &[9u8; 32],
        &[1u8; 24],
        "f.txt",
        b"plain",
        Some(&signing),
    )
    .unwrap();
    let p = unpack_pubenc_blob(&sealed).unwrap();
    let sk = ed25519_dalek::SigningKey::from_bytes(&signing);
    let sig = p.signature.unwrap();
    assert_eq!(sig.verifying_key, sk.verifying_key().to_bytes());
    assert_eq!(sig.signature, sk.sign(b"plain").to_bytes());
    let expected_aad = format!(
        "file=f.txt|ephemeral_pub={}|sig_vk={}",
        hex::encode(x25519_pub([9u8; 32])),
        hex::encode(sk.verifying_key().to_bytes())
    );
    assert_eq!(p.aad, expected_aad.into_bytes());
    let d = open_sealed_file(&secret, &sealed).unwrap();
    assert_eq!(d.plaintext, b"plain".to_vec());
    assert!(d.signed);
}

#[test]
fn sealed_file_refuses_wrong_secret() {
    let sealed =
        seal_file_for_recipient(&x25519_pub([7u8; 32]), &[9u8; 32], &[1u8; 24], "f", b"x", None)
            .unwrap();
    match open_sealed_file(&[8u8; 32], &sealed) {
        Err(CryptError::Crypto(m)) => {
            assert_eq!(m, "Decryption failed — wrong password or file tampered")
        }
        _ => panic!("expected a decryption failure"),
    }
}

#[test]
fn sealed_file_refuses_forged_signature() {
    let secret = [7u8; 32];
    let mut sealed = seal_file_for_recipient(
        &x25519_pub(secret),
        &[9u8; 32],
        &[1u8; 24],
        "f",
        b"payload",
        Some(&[5u8; 32]),
    )
    .unwrap();
    sealed[40] ^= 0x01;
    match open_sealed_file(&secret, &sealed) {
        Err(CryptError::Crypto(m)) => assert_eq!(
            m,
            "❌ Signature verification FAILED — file may have been tampered with. Decrypted content NOT written to disk."
        ),
        _ => panic!("expected a signature failure"),
    }
}

#[test]
fn sealed_file_refuses_undecodable_verifying_key() {
    let secret = [7u8; 32];
    let eph = [9u8; 32];
    let eph_pub = x25519_pub(eph);
    let mut bad = [0u8; 32];
    for b in 0u8..=255 {
        bad[0] = b;
        if ed25519_dalek::VerifyingKey::from_bytes(&bad).is_err() {
            break;
        }
    }
    assert!(ed25519_dalek::VerifyingKey::from_bytes(&bad).is_err());
    let shared = x25519_dalek::StaticSecret::from(secret)
        .diffie_hellman(&x25519_dalek::PublicKey::from(eph_pub));
    let key = derive_symmetric_key_from_shared_secret(shared.as_bytes(), &eph_pub, &FILE_KEY_INFO);
    let nonce = [1u8; 24];
    let ct = encrypt_with_aad(&key, &nonce, b"msg", b"aad").unwrap();
    let sig = PubencSignature { verifying_key: bad, signature: [0u8; 64] };
    let file = pack_pubenc_blob(&eph_pub, &nonce, b"aad", &ct, Some(&sig));
    match open_sealed_file(&secret, &file) {
        Err(CryptError::Key(m)) => assert_eq!(
            m,
            "Invalid Ed25519 verifying key in file: signature error: Cannot decompress Edwards point"
        ),
        _ => panic!("expected a key error"),
    }
}

#[test]
fn sealed_file_refuses_malformed_file() {
    match open_sealed_file(&[7u8; 32], b"SCFv") {
        Err(CryptError::Format(m)) => {
            assert_eq!(m, "Invalid pubenc file format: Format error: pubenc blob too small")
        }
        _ => panic!("expected a format error"),
    }
}

#[test]
fn encrypt_file_with_key_round_trip() {
    let secret = [0x21u8; 32];
    let text = format!(
        "  {}\n",
        base64::Engine::encode(&base64::engine::general_purpose::STANDARD, x25519_pub(secret))
    );
    let sealed = cmd_encrypt_file_with_key(&text, "doc.txt", b"contents", None).unwrap();
    let d = open_sealed_file(&secret, &sealed).unwrap();
    assert_eq!(d.plaintext, b"contents".to_vec());
    assert!(!d.signed);
}

#[test]
fn encrypt_file_with_key_rejects_bad_base64() {
    match cmd_encrypt_file_with_key("not base64!", "f", b"x", None) {
        Err(CryptError::Key(m)) => assert!(m.starts_with("Failed to decode public key: ")),
        _ => panic!("expected a key error"),
    }
}

#[test]
fn encrypt_file_with_key_rejects_short_key() {
    match cmd_encrypt_file_with_key("AAAA", "f", b"x", None) {
        Err(CryptError::Key(m)) => assert_eq!(m, "Invalid X25519 public key length"),
        _ => panic!("expected a key error"),
    }
}

#[test]
fn encrypt_for_recipient_uses_fresh_randomness() {
    let recipient = x25519_pub([3u8; 32]);
    let a = encrypt_for_recipient(&recipient, "f", b"same", None).unwrap();
    let b = encrypt_for_recipient(&recipient, "f", b"same", None).unwrap();
    assert_ne!(a, b);
    assert_eq!(open_sealed_file(&[3u8; 32], &a).unwrap().plaintext, b"same".to_vec());
}

#[test]
fn unlock_private_key_round_trip() {
    let secret = [0x5Au8; 32];
    let blob = low_cost_backup("correct horse battery", &secret);
    assert_eq!(unlock_private_key("correct horse battery", &blob).unwrap(), secret);
}

#[test]
fn unlock_private_key_rejects_wrong_length() {
    let blob = low_cost_backup("pw-pw-pw-pw-pw", &[1u8; 31]);
    match unlock_private_key("pw-pw-pw-pw-pw", &blob) {
        Err(CryptError::Key(m)) => assert_eq!(m, "Invalid X25519 private key length"),
        _ => panic!("expected a key error"),
    }
}

#[test]
fn unlock_private_key_rejects_wrong_password() {
    let blob = low_cost_backup("right-password", &[1u8; 32]);
    match unlock_private_key("wrong-password", &blob) {
        Err(CryptError::Crypto(m)) => {
            assert_eq!(m, "Decryption failed — wrong password or file tampered")
        }
        _ => panic!("expected a decryption failure"),
    }
}

#[test]
fn unlock_private_key_reports_bad_blob() {
    match unlock_private_key("pw", b"SGPGv2-not-a-blob") {
        Err(CryptError::Format(m)) => assert_eq!(
            m,
            "Invalid private key blob format: Format error: bad magic - invalid file format"
        ),
        _ => panic!("expected a format error"),
    }
}

#[test]
fn decrypt_workflow_round_trip() {
    let secret = [0x42u8; 32];
    let key_blob = low_cost_backup("a long password", &secret);
    let sealed = seal_file_for_recipient(
        &x25519_pub(secret),
        &[0x11u8; 32],
        &[0x22u8; 24],
        "report.pdf",
        b"the report",
        Some(&[0x33u8; 32]),
    )
    .unwrap();
    let d = cmd_decrypt_workflow("a long password", &key_blob, &sealed).unwrap();
    assert_eq!(d.plaintext, b"the report".to_vec());
    assert!(d.signed);
}

#[test]
fn fingerprint_is_upper_hex_sha256() {
    let expected = hex::encode_upper(sha2::Sha256::digest([0xFFu8; 32]));
    assert_eq!(yacrypt::utils::compute_fingerprint(&[0xFFu8; 32]), expected);
}
