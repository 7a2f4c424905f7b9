use chacha20poly1305::aead::OsRng;
use rand::RngCore;
use x25519_dalek::{EphemeralSecret, PublicKey as X25519PublicKey, StaticSecret};
use yacrypt::blob::{pack_encrypted_blob, unpack_encrypted_blob};
use yacrypt::constants::{
    KEY_LEN, MAGIC, MAX_ARGON_M_COST_KIB, MAX_ARGON_P_COST, MAX_ARGON_T_COST, SALT_LEN,
    XNONCE_LEN,
};
use yacrypt::crypto::{
    decrypt_with_aad, derive_key, derive_symmetric_key_from_shared_secret, encrypt_with_aad,
};
use yacrypt::error::CryptError;
use yacrypt::pubenc::{pack_pubenc_blob, unpack_pubenc_blob, PubencSignature};

// ── derive_key ─────────────────────────────────────

#[test]
fn derive_key_roundtrip() {
    let salt = [0xABu8; 16];
    let k1 = derive_key("test-password-1234", &salt, 256, 1, 1).unwrap();
    let k2 = derive_key("test-password-1234", &salt, 256, 1, 1).unwrap();
    assert_eq!(k1, k2);
    assert_eq!(k1.len(), KEY_LEN);

    let k3 = derive_key("different-password-5678", &salt, 256, 1, 1).unwrap();
    assert_ne!(k1, k3);
}

#[test]
fn derive_key_rejects_excessive_mem() {
    let r = derive_key("p", &[0u8; 16], MAX_ARGON_M_COST_KIB + 1, 1, 1);
    assert!(matches!(r, Err(CryptError::Key(_))));
}

#[test]
fn derive_key_rejects_zero_t_cost() {
    assert!(derive_key("p", &[0u8; 16], 256, 0, 1).is_err());
}

#[test]
fn derive_key_rejects_excessive_t_cost() {
    assert!(derive_key("p", &[0u8; 16], 256, MAX_ARGON_T_COST + 1, 1).is_err());
}

#[test]
fn derive_key_rejects_zero_p_cost() {
    assert!(derive_key("p", &[0u8; 16], 256, 1, 0).is_err());
}

#[test]
fn derive_key_rejects_excessive_p_cost() {
    assert!(derive_key("p", &[0u8; 16], 256, 1, MAX_ARGON_P_COST + 1).is_err());
}

// ── encrypted blob ─────────────────────────────────

#[test]
fn encrypted_blob_roundtrip() {
    let salt = vec![1u8; 16];
    let nonce = vec![2u8; 24];
    let aad = b"name=test|email=t@t.com";
    let ct = vec![3u8; 100];

    let blob = pack_encrypted_blob(65536, 2, 1, &salt, &nonce, aad, &ct);
    let p = unpack_encrypted_blob(&blob).unwrap();

    assert_eq!(p.mem_kib, 65536);
    assert_eq!(p.t_cost, 2);
    assert_eq!(p.p_cost, 1);
    assert_eq!(p.salt, salt);
    assert_eq!(p.nonce, nonce);
    assert_eq!(p.aad, aad.to_vec());
    assert_eq!(p.ciphertext, ct);
}

#[test]
fn encrypted_blob_rejects_bad_magic() {
    let r = unpack_encrypted_blob(b"BADMAGrest_of_data_padding_aaaa");
    assert!(matches!(r, Err(CryptError::Format(_))));
}

#[test]
fn encrypted_blob_rejects_empty() {
    assert!(unpack_encrypted_blob(&[]).is_err());
}

#[test]
fn encrypted_blob_rejects_truncated() {
    assert!(unpack_encrypted_blob(&MAGIC).is_err());
}

// ── pubenc blob ────────────────────────────────────

#[test]
fn pubenc_roundtrip_no_sig() {
    let eph = [0xAAu8; 32];
    let nonce = [0xBBu8; 24];
    let aad = b"file=test.txt";
    let ct = vec![0xCCu8; 200];

    let blob = pack_pubenc_blob(&eph, &nonce, aad, &ct, None);
    let p = unpack_pubenc_blob(&blob).unwrap();
    assert_eq!(p.ephemeral_pub, eph);
    assert_eq!(p.nonce, nonce);
    assert_eq!(p.ciphertext, ct);
    assert!(p.signature.is_none());
}

#[test]
fn pubenc_roundtrip_with_sig() {
    let eph = [0xAAu8; 32];
    let nonce = [0xBBu8; 24];
    let sig = PubencSignature { verifying_key: [0xDDu8; 32], signature: [0xEEu8; 64] };

    let blob = pack_pubenc_blob(&eph, &nonce, b"aad", &[0xCCu8; 50], Some(&sig));
    let p = unpack_pubenc_blob(&blob).unwrap();
    let ps = p.signature.unwrap();
    assert_eq!(ps.verifying_key, [0xDDu8; 32]);
    assert_eq!(ps.signature, [0xEEu8; 64]);
}

#[test]
fn pubenc_rejects_bad_magic() {
    assert!(matches!(unpack_pubenc_blob(b"WRONG"), Err(CryptError::Format(_))));
}

// ── encrypt / decrypt ──────────────────────────────

#[test]
fn encrypt_decrypt_roundtrip() {
    let key = [42u8; KEY_LEN];
    let nonce = [7u8; XNONCE_LEN];
    let pt = b"Hello, secret message!";
    let aad = b"associated-data";

    let ct = encrypt_with_aad(&key, &nonce, pt, aad).unwrap();
    assert_ne!(ct, pt.to_vec());

    let dec = decrypt_with_aad(&key, &nonce, &ct, aad).unwrap();
    assert_eq!(dec, pt.to_vec());
}

#[test]
fn decrypt_fails_wrong_key() {
    let ct = encrypt_with_aad(&[42u8; KEY_LEN], &[7u8; XNONCE_LEN], b"x", b"a").unwrap();
    assert!(decrypt_with_aad(&[99u8; KEY_LEN], &[7u8; XNONCE_LEN], &ct, b"a").is_err());
}

#[test]
fn decrypt_fails_wrong_aad() {
    let key = [42u8; KEY_LEN];
    let nonce = [7u8; XNONCE_LEN];
    let ct = encrypt_with_aad(&key, &nonce, b"x", b"good").unwrap();
    assert!(decrypt_with_aad(&key, &nonce, &ct, b"bad").is_err());
}

#[test]
fn decrypt_fails_tampered_ciphertext() {
    let key = [42u8; KEY_LEN];
    let nonce = [7u8; XNONCE_LEN];
    let mut ct = encrypt_with_aad(&key, &nonce, b"x", b"a").unwrap();
    ct[0] ^= 0xFF;
    assert!(decrypt_with_aad(&key, &nonce, &ct, b"a").is_err());
}

// ── HKDF ───────────────────────────────────────────

#[test]
fn hkdf_deterministic() {
    let s = [0xABu8; 32];
    let k1 = derive_symmetric_key_from_shared_secret(&s, &[0xCDu8; 32], b"info");
    let k2 = derive_symmetric_key_from_shared_secret(&s, &[0xCDu8; 32], b"info");
    assert_eq!(k1, k2);
}

#[test]
fn hkdf_different_info() {
    let s = [0xABu8; 32];
    let k1 = derive_symmetric_key_from_shared_secret(&s, &[0xCDu8; 32], b"A");
    let k2 = derive_symmetric_key_from_shared_secret(&s, &[0xCDu8; 32], b"B");
    assert_ne!(k1, k2);
}

// ── Full E2E ───────────────────────────────────────

#[test]
fn full_blob_e2e() {
    let pw = "test-password-1234";
    let salt = [0x11u8; SALT_LEN];
    let nonce = [0x22u8; XNONCE_LEN];
    let aad = b"name=Test|email=t@t.com";
    let pt = b"secret key data";

    let key = derive_key(pw, &salt, 256, 1, 1).unwrap();
    let ct = encrypt_with_aad(&key, &nonce, pt, aad).unwrap();
    let blob = pack_encrypted_blob(256, 1, 1, &salt, &nonce, aad, &ct);

    let p = unpack_encrypted_blob(&blob).unwrap();
    let k2 = derive_key(pw, &p.salt, p.mem_kib, p.t_cost, p.p_cost).unwrap();
    let dec = decrypt_with_aad(&k2, &p.nonce, &p.ciphertext, &p.aad).unwrap();
    assert_eq!(dec, pt.to_vec());
}

#[test]
fn full_pubenc_e2e() {
    let pt = b"Sensitive document";
    let recipient = StaticSecret::random_from_rng(OsRng);
    let recipient_pub = X25519PublicKey::from(&recipient);

    let eph = EphemeralSecret::random_from_rng(OsRng);
    let eph_pub = X25519PublicKey::from(&eph);
    let eph_bytes = eph_pub.to_bytes();
    let shared = eph.diffie_hellman(&recipient_pub);
    let sym = derive_symmetric_key_from_shared_secret(
        shared.as_bytes(),
        &eph_bytes,
        b"yacrypt-file-encryption-v1",
    );
    let mut nonce = [0u8; XNONCE_LEN];
    OsRng.fill_bytes(&mut nonce);
    let ct = encrypt_with_aad(&sym, &nonce, pt, b"aad").unwrap();

    let blob = pack_pubenc_blob(&eph_bytes, &nonce, b"aad", &ct, None);
    let p = unpack_pubenc_blob(&blob).unwrap();

    let shared2 = recipient.diffie_hellman(&X25519PublicKey::from(p.ephemeral_pub));
    let sym2 = derive_symmetric_key_from_shared_secret(
        shared2.as_bytes(),
        &p.ephemeral_pub,
        b"yacrypt-file-encryption-v1",
    );
    let dec = decrypt_with_aad(&sym2, &p.nonce, &p.ciphertext, &p.aad).unwrap();
    assert_eq!(dec, pt.to_vec());
}

#[test]
fn encrypted_blob_ignores_trailing_bytes() {
    let mut blob = pack_encrypted_blob(1, 2, 3, &[4u8; 8], &[5u8; 24], b"ad", &[6u8; 3]);
    blob.extend_from_slice(&[9, 9, 9]);
    let p = unpack_encrypted_blob(&blob).unwrap();
    assert_eq!((p.mem_kib, p.t_cost, p.p_cost), (1, 2, 3));
    assert_eq!(p.ciphertext, vec![6u8; 3]);
}

#[test]
fn encrypted_blob_reports_first_fault() {
    let blob = pack_encrypted_blob(1, 2, 3, &[4u8; 8], &[5u8; 24], b"ad", &[6u8; 3]);
    let cut = |n: usize| match unpack_encrypted_blob(&blob[..n]) {
        Err(CryptError::Format(m)) => m,
        _ => panic!("expected a format error"),
    };
    assert_eq!(cut(0), "blob too small");
    assert_eq!(cut(10), "blob missing Argon2 params");
    assert_eq!(cut(18), "missing salt length");
    assert_eq!(cut(20), "missing salt bytes");
    assert_eq!(cut(27), "missing nonce length");
    assert_eq!(cut(30), "missing nonce bytes");
    assert_eq!(cut(52), "missing AAD length");
    assert_eq!(cut(55), "missing AAD bytes");
    assert_eq!(cut(60), "missing ciphertext length");
    assert_eq!(cut(66), "missing ciphertext bytes");
    assert_eq!(blob.len(), 6 + 12 + 1 + 8 + 1 + 24 + 2 + 2 + 8 + 3);
}

#[test]
fn pubenc_reports_first_fault() {
    let sig = PubencSignature { verifying_key: [1u8; 32], signature: [2u8; 64] };
    let blob = pack_pubenc_blob(&[3u8; 32], &[4u8; 24], b"aad", &[5u8; 7], Some(&sig));
    let cut = |n: usize| match unpack_pubenc_blob(&blob[..n]) {
        Err(CryptError::Format(m)) => m,
        _ => panic!("expected a format error"),
    };
    assert_eq!(cut(4), "pubenc blob too small");
    assert_eq!(cut(5), "missing flags byte");
    assert_eq!(cut(60), "missing signature data");
    assert_eq!(cut(110), "missing ephemeral public key");
    assert_eq!(cut(140), "missing nonce");
    assert_eq!(cut(159), "missing AAD length");
    assert_eq!(cut(161), "missing AAD bytes");
    assert_eq!(cut(165), "missing ciphertext length");
    assert_eq!(cut(172), "missing ciphertext bytes");
    assert_eq!(blob.len(), 5 + 1 + 96 + 32 + 24 + 2 + 3 + 8 + 7);
    let mut tail = blob.clone();
    tail.push(0);
    assert_eq!(unpack_pubenc_blob(&tail).unwrap().ciphertext, vec![5u8; 7]);
}

#[test]
fn pubenc_bad_magic_message() {
    match unpack_pubenc_blob(b"XXXXX\x00") {
        Err(CryptError::Format(m)) => assert_eq!(m, "bad magic — not a valid pubenc file"),
        _ => panic!("expected a format error"),
    }
}

#[test]
fn hkdf_matches_reference() {
    let hk = hkdf::Hkdf::<sha2::Sha256>::new(Some(&[0xCDu8; 32]), &[0xABu8; 32]);
    let mut okm = [0u8; 32];
    hk.expand(b"info", &mut okm).unwrap();
    assert_eq!(derive_symmetric_key_from_shared_secret(&[0xABu8; 32], &[0xCDu8; 32], b"info"), okm);
}

#[test]
fn encryption_appends_tag_and_fails_message() {
    let ct = encrypt_with_aad(&[1u8; 32], &[2u8; 24], b"abc", b"").unwrap();
    assert_eq!(ct.len(), 3 + 16);
    match decrypt_with_aad(&[1u8; 32], &[2u8; 24], &ct[..10], b"") {
        Err(CryptError::Crypto(m)) => assert_eq!(m, "Decryption failed — wrong password or file tampered"),
        _ => panic!("expected a decryption failure"),
    }
}

#[test]
fn derive_key_matches_reference_argon2id() {
    let params = argon2::Params::new(256, 1, 1, Some(32)).unwrap();
    let a = argon2::Argon2::new(argon2::Algorithm::Argon2id, argon2::Version::V0x13, params);
    let mut expected = [0u8; 32];
    a.hash_password_into(b"reference-pw", &[0x5Au8; 16], &mut expected).unwrap();
    assert_eq!(derive_key("reference-pw", &[0x5Au8; 16], 256, 1, 1).unwrap(), expected);
}
