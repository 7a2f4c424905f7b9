//! The two workflows: encrypting a file (with a fresh, signed key pair or
//! for an existing public key) and decrypting it (unlocking the private key
//! with its password, opening the file, checking the signature).

use vstd::prelude::*;
use vstd::string::*;

use crate::bytes::copy_array;
use crate::crypto::{
    decrypt_outcome, decrypt_with_aad, derive_symmetric_key_from_shared_secret,
    xchacha20poly1305_seal,
};
use crate::error::{outcome_is, CryptError, ErrorKind};
use crate::constants::{MAX_AEAD_MESSAGE_LEN, SALT_LEN, XNONCE_LEN};
use crate::file_ops::{
    cmd_encrypt_file_with_key, encrypt_for_recipient, file_key, is_sealing_of,
    lemma_sealed_file_parses, public_key_of, public_key_refusal, seal_fits, sealed_file,
    FILE_KEY_INFO,
};
use crate::keystore::{
    backup_blob, backup_fits, backup_nonce_fits, backup_open_outcome, generate_and_store_keys,
    generated_backups_open, generated_keys, open_backup, GeneratedKeys, GeneratedKeysView,
};
use crate::primitives::{
    ed25519_check, ed25519_key_decodes, ed25519_public, ed25519_sign, ed25519_verifies, wipe_key,
    wipe_vec, x25519_diffie_hellman, x25519_public, x25519_shared,
};
use crate::pubenc::{
    parse_pubenc, pubenc_fault_text, signature_view, unpack_pubenc_blob, PubencSignature,
    UnpackedPubenc,
};

verus! {

/// What unlocking an X25519 private key gives: the 32-byte secret, or the
/// refusal of the backup or of a secret of another length.
pub open spec fn private_key_outcome(password: Seq<u8>, key_blob: Seq<u8>) -> Result<
    Seq<u8>,
    (ErrorKind, Seq<char>),
> {
    match backup_open_outcome(password, key_blob, "Invalid private key blob format: "@) {
        Err(e) => Err(e),
        Ok(s) => if s.len() != 32 {
            Err((ErrorKind::Key, "Invalid X25519 private key length"@))
        } else {
            Ok(s)
        },
    }
}

/// Unlocks an X25519 private key backed up under `password`.  The backup of
/// a 32-byte secret unlocks to that secret; the backup of a secret of any
/// other length is refused as not an X25519 key.
pub fn unlock_private_key(password: &str, key_blob: &[u8]) -> (r: Result<[u8; 32], CryptError>)
    requires
        backup_nonce_fits(password.spec_bytes(), key_blob@),
    ensures
        outcome_is(r, private_key_outcome(password.spec_bytes(), key_blob@)),
        forall|salt: Seq<u8>, nonce: Seq<u8>, aad: Seq<u8>, secret: Seq<u8>|
            backup_fits(password.spec_bytes(), salt, nonce, aad, secret) && secret.len() == 32
                && key_blob@ == #[trigger] backup_blob(password.spec_bytes(), salt, nonce, aad, secret)
                ==> (r matches Ok(k) && k@ == secret),
        forall|salt: Seq<u8>, nonce: Seq<u8>, aad: Seq<u8>, secret: Seq<u8>|
            backup_fits(password.spec_bytes(), salt, nonce, aad, secret) && secret.len() != 32
                && key_blob@ == #[trigger] backup_blob(password.spec_bytes(), salt, nonce, aad, secret)
                ==> (r matches Err(e) && e@ == (ErrorKind::Key, "Invalid X25519 private key length"@)),
{
    let mut secret = match open_backup(password, key_blob, "Invalid private key blob format: ") {
        Ok(s) => s,
        Err(e) => return Err(e),
    };
    if secret.len() != 32 {
        wipe_vec(&mut secret);
        return Err(CryptError::Key(String::from_str("Invalid X25519 private key length")));
    }
    let key: [u8; 32] = copy_array(secret.as_slice(), 0);
    proof {
        assert(secret@.subrange(0, 32) =~= secret@);
    }
    wipe_vec(&mut secret);
    Ok(key)
}

/// A decrypted file: its plaintext, and whether an embedded signature of it
/// was verified.
pub struct DecryptedFile {
    pub plaintext: Vec<u8>,
    pub signed: bool,
}

impl View for DecryptedFile {
    type V = (Seq<u8>, bool);

    open spec fn view(&self) -> (Seq<u8>, bool) {
        (self.plaintext@, self.signed)
    }
}

/// The message that refuses a file whose signature does not verify.
pub open spec fn signature_failure_text() -> Seq<char> {
    "❌ Signature verification FAILED — file may have been tampered with. Decrypted content NOT written to disk."@
}

/// What opening a public-key encrypted file with the X25519 secret `secret`
/// gives: the plaintext and whether it was signed, or the first refusal (a
/// malformed file; a ciphertext that does not authenticate under the key
/// agreed with the ephemeral public key; then `signature_outcome`).
pub open spec fn open_file_outcome(secret: Seq<u8>, data: Seq<u8>) -> Result<
    (Seq<u8>, bool),
    (ErrorKind, Seq<char>),
> {
    match parse_pubenc(data) {
        Err(f) => Err(
            (ErrorKind::Format, "Invalid pubenc file format: "@ + "Format error: "@ + pubenc_fault_text(f)),
        ),
        Ok(v) => match decrypt_outcome(
            file_key(x25519_shared(secret, v.ephemeral_pub), v.ephemeral_pub),
            v.nonce,
            v.ciphertext,
            v.aad,
        ) {
            Err(e) => Err(e),
            Ok(pt) => signature_outcome(v.signature, pt),
        },
    }
}

/// Decrypts the ciphertext of a parsed file under the key agreed between
/// `secret` and the file's ephemeral public key.
fn decrypt_sealed(secret: &[u8; 32], p: &UnpackedPubenc) -> (r: Result<Vec<u8>, CryptError>)
    ensures
        outcome_is(
            r,
            decrypt_outcome(
                file_key(x25519_shared(secret@, p.ephemeral_pub@), p.ephemeral_pub@),
                p.nonce@,
                p.ciphertext@,
                p.aad@,
            ),
        ),
        forall|e: Seq<u8>, pt: Seq<u8>|
            e.len() == 32 && pt.len() <= MAX_AEAD_MESSAGE_LEN && p.ciphertext@.len() == pt.len() + 16
                && p.ephemeral_pub == x25519_public(e) && p.ciphertext@ == #[trigger] xchacha20poly1305_seal(
                file_key(x25519_shared(e, x25519_public(secret@)@), x25519_public(e)@),
                p.nonce@,
                pt,
                p.aad@,
            ) ==> (r matches Ok(v) && v@ == pt),
{
    let mut shared = x25519_diffie_hellman(secret, &p.ephemeral_pub);
    let mut key = derive_symmetric_key_from_shared_secret(
        &shared,
        p.ephemeral_pub.as_slice(),
        FILE_KEY_INFO.as_slice(),
    );
    let r = decrypt_with_aad(&key, p.nonce.as_slice(), p.ciphertext.as_slice(), p.aad.as_slice());
    proof {
        assert forall|e: Seq<u8>, pt: Seq<u8>|
            e.len() == 32 && pt.len() <= MAX_AEAD_MESSAGE_LEN && p.ciphertext@.len() == pt.len() + 16
                && p.ephemeral_pub == x25519_public(e) && p.ciphertext@ == #[trigger] xchacha20poly1305_seal(
                file_key(x25519_shared(e, x25519_public(secret@)@), x25519_public(e)@),
                p.nonce@,
                pt,
                p.aad@,
            ) implies (r matches Ok(v) && v@ == pt) by {
            assert(shared@ == x25519_shared(e, x25519_public(secret@)@));
            assert(key@ == file_key(x25519_shared(e, x25519_public(secret@)@), x25519_public(e)@));
        }
    }
    wipe_key(&mut shared);
    wipe_key(&mut key);
    r
}

/// What checking the signature block of a decrypted file gives.
pub open spec fn signature_outcome(signature: Option<(Seq<u8>, Seq<u8>)>, plaintext: Seq<u8>) -> Result<
    (Seq<u8>, bool),
    (ErrorKind, Seq<char>),
> {
    match signature {
        None => Ok((plaintext, false)),
        Some((vk, sig)) => if !ed25519_key_decodes(vk) {
            Err(
                (
                    ErrorKind::Key,
                    "Invalid Ed25519 verifying key in file: "@
                        + "signature error: Cannot decompress Edwards point"@,
                ),
            )
        } else if !ed25519_verifies(vk, plaintext, sig) {
            Err((ErrorKind::Crypto, signature_failure_text()))
        } else {
            Ok((plaintext, true))
        },
    }
}

/// Gives out a decrypted plaintext after checking its signature, if the
/// file carries one; a plaintext refused is wiped.  A signature that the
/// signing key of the embedded verifying key made of the plaintext passes.
fn check_signature(signature: &Option<PubencSignature>, plaintext: Vec<u8>) -> (r: Result<
    DecryptedFile,
    CryptError,
>)
    ensures
        outcome_is(r, signature_outcome(signature_view(*signature), plaintext@)),
        forall|k: Seq<u8>|
            k.len() == 32 && signature_view(*signature) == Some(
                (#[trigger] ed25519_public(k)@, ed25519_sign(k, plaintext@)@),
            ) ==> (r matches Ok(d) && d@ == (plaintext@, true)),
{
    let mut plaintext = plaintext;
    match signature {
        None => {
            assert(signature_view(*signature) is None);
            Ok(DecryptedFile { plaintext, signed: false })
        },
        Some(sig) => {
            let checked = ed25519_check(&sig.verifying_key, plaintext.as_slice(), &sig.signature);
            proof {
                assert forall|k: Seq<u8>|
                    k.len() == 32 && signature_view(*signature) == Some(
                        (#[trigger] ed25519_public(k)@, ed25519_sign(k, plaintext@)@),
                    ) implies checked == Ok::<bool, String>(true) by {
                    assert(sig.verifying_key =~= ed25519_public(k));
                    assert(sig.signature =~= ed25519_sign(k, plaintext@));
                }
            }
            match checked {
                Ok(true) => Ok(DecryptedFile { plaintext, signed: true }),
                Ok(false) => {
                    wipe_vec(&mut plaintext);
                    Err(
                        CryptError::Crypto(
                            String::from_str(
                                "❌ Signature verification FAILED — file may have been tampered with. Decrypted content NOT written to disk.",
                            ),
                        ),
                    )
                },
                Err(m) => {
                    wipe_vec(&mut plaintext);
                    Err(
                        CryptError::Key(
                            String::from_str("Invalid Ed25519 verifying key in file: ").concat(m.as_str()),
                        ),
                    )
                },
            }
        },
    }
}

/// Opens a public-key encrypted file with the X25519 secret `secret`,
/// refusing it when an embedded signature does not verify.  A file sealed
/// for the public key of `secret` opens to its plaintext, signed exactly
/// when it was sealed with a signing key.
pub fn open_sealed_file(secret: &[u8; 32], data: &[u8]) -> (r: Result<DecryptedFile, CryptError>)
    ensures
        outcome_is(r, open_file_outcome(secret@, data@)),
        forall|e: Seq<u8>, n: Seq<u8>, filename: Seq<char>, pt: Seq<u8>, sk: Option<Seq<u8>>|
            seal_fits(x25519_public(secret@)@, e, n, filename, pt, sk) && data@ == #[trigger] sealed_file(
                x25519_public(secret@)@,
                e,
                n,
                filename,
                pt,
                sk,
            ) ==> (r matches Ok(d) && d.plaintext@ == pt && d.signed == sk is Some),
{
    let data_len: usize = data.len();
    assert(data@.len() <= u64::MAX);
    let ghost recipient = x25519_public(secret@)@;
    let pubenc = match unpack_pubenc_blob(data) {
        Ok(p) => p,
        Err(e) => {
            let m = String::from_str("Invalid pubenc file format: ").concat(e.message().as_str());
            proof {
                assert forall|e: Seq<u8>, n: Seq<u8>, filename: Seq<char>, pt: Seq<u8>, sk: Option<Seq<u8>>|
                    seal_fits(recipient, e, n, filename, pt, sk) && data@ == #[trigger] sealed_file(
                        recipient,
                        e,
                        n,
                        filename,
                        pt,
                        sk,
                    ) implies false by {
                    lemma_sealed_file_parses(recipient, e, n, filename, pt, sk);
                }
                let f = parse_pubenc(data@)->Err_0;
                assert(m@ =~= "Invalid pubenc file format: "@ + "Format error: "@ + pubenc_fault_text(f));
            }
            return Err(CryptError::Format(m));
        },
    };
    let plaintext = match decrypt_sealed(secret, &pubenc) {
        Ok(p) => p,
        Err(e) => {
            proof {
                assert forall|e: Seq<u8>, n: Seq<u8>, filename: Seq<char>, pt: Seq<u8>, sk: Option<Seq<u8>>|
                    seal_fits(recipient, e, n, filename, pt, sk) && data@ == #[trigger] sealed_file(
                        recipient,
                        e,
                        n,
                        filename,
                        pt,
                        sk,
                    ) implies false by {
                    lemma_sealed_file_parses(recipient, e, n, filename, pt, sk);
                    assert(pubenc.ephemeral_pub =~= x25519_public(e));
                }
            }
            return Err(e);
        },
    };
    let ghost pt_seen = plaintext@;
    let r = check_signature(&pubenc.signature, plaintext);
    proof {
        assert forall|e: Seq<u8>, n: Seq<u8>, filename: Seq<char>, pt: Seq<u8>, sk: Option<Seq<u8>>|
            seal_fits(recipient, e, n, filename, pt, sk) && data@ == #[trigger] sealed_file(
                recipient,
                e,
                n,
                filename,
                pt,
                sk,
            ) implies (r matches Ok(d) && d.plaintext@ == pt && d.signed == sk is Some) by {
            lemma_sealed_file_parses(recipient, e, n, filename, pt, sk);
            assert(pubenc.ephemeral_pub =~= x25519_public(e));
            assert(pt_seen == pt);
            if sk is Some {
                let k = sk->Some_0;
                assert(signature_view(pubenc.signature) == Some((ed25519_public(k)@, ed25519_sign(k, pt)@)));
            }
        }
    }
    r
}

/// What the decryption workflow gives: the private key unlocked with the
/// password opens the file, or the first refusal.
pub open spec fn decrypt_workflow_outcome(password: Seq<u8>, key_blob: Seq<u8>, enc_blob: Seq<u8>) -> Result<
    (Seq<u8>, bool),
    (ErrorKind, Seq<char>),
> {
    match private_key_outcome(password, key_blob) {
        Err(e) => Err(e),
        Ok(secret) => open_file_outcome(secret, enc_blob),
    }
}

/// Decrypts a file: unlocks the X25519 private key backed up in `key_blob`
/// with `password`, opens the public-key encrypted file `enc_blob` with it,
/// and verifies an embedded signature before giving the plaintext out.  A
/// file sealed for the public key of a backed-up secret decrypts, with that
/// backup and its password, to its plaintext.
pub fn cmd_decrypt_workflow(password: &str, key_blob: &[u8], enc_blob: &[u8]) -> (r: Result<
    DecryptedFile,
    CryptError,
>)
    requires
        backup_nonce_fits(password.spec_bytes(), key_blob@),
    ensures
        outcome_is(r, decrypt_workflow_outcome(password.spec_bytes(), key_blob@, enc_blob@)),
        forall|
            salt: Seq<u8>,
            nonce: Seq<u8>,
            aad: Seq<u8>,
            secret: Seq<u8>,
            e: Seq<u8>,
            n: Seq<u8>,
            filename: Seq<char>,
            pt: Seq<u8>,
            sk: Option<Seq<u8>>,
        |
            backup_fits(password.spec_bytes(), salt, nonce, aad, secret) && secret.len() == 32
                && key_blob@ == #[trigger] backup_blob(password.spec_bytes(), salt, nonce, aad, secret)
                && seal_fits(x25519_public(secret)@, e, n, filename, pt, sk) && enc_blob@ == #[trigger] sealed_file(
                x25519_public(secret)@,
                e,
                n,
                filename,
                pt,
                sk,
            ) ==> (r matches Ok(d) && d.plaintext@ == pt && d.signed == sk is Some),
{
    let ghost pw = password.spec_bytes();
    let mut secret = match unlock_private_key(password, key_blob) {
        Ok(s) => s,
        Err(e) => {
            proof {
                assert forall|
                    salt: Seq<u8>,
                    nonce: Seq<u8>,
                    aad: Seq<u8>,
                    secret: Seq<u8>,
                    e: Seq<u8>,
                    n: Seq<u8>,
                    filename: Seq<char>,
                    pt: Seq<u8>,
                    sk: Option<Seq<u8>>,
                |
                    backup_fits(pw, salt, nonce, aad, secret) && secret.len() == 32 && key_blob@
                        == #[trigger] backup_blob(pw, salt, nonce, aad, secret) && seal_fits(x25519_public(secret)@, e, n, filename, pt, sk)
                        && enc_blob@ == #[trigger] sealed_file(x25519_public(secret)@, e, n, filename, pt, sk)
                    implies false by {}
            }
            return Err(e);
        },
    };
    let r = open_sealed_file(&secret, enc_blob);
    proof {
        assert forall|
            salt: Seq<u8>,
            nonce: Seq<u8>,
            aad: Seq<u8>,
            s: Seq<u8>,
            e: Seq<u8>,
            n: Seq<u8>,
            filename: Seq<char>,
            pt: Seq<u8>,
            sk: Option<Seq<u8>>,
        |
            backup_fits(pw, salt, nonce, aad, s) && s.len() == 32 && key_blob@
                == #[trigger] backup_blob(pw, salt, nonce, aad, s) && seal_fits(x25519_public(s)@, e, n, filename, pt, sk)
                && enc_blob@ == #[trigger] sealed_file(x25519_public(s)@, e, n, filename, pt, sk)
            implies (r matches Ok(d) && d.plaintext@ == pt && d.signed == sk is Some) by {
            assert(secret@ == s);
        }
    }
    wipe_key(&mut secret);
    r
}

/// Whether `keys` are what generating keys for `name` and `email` under
/// `password` gives for some secrets, salts and nonces, with backups that
/// open under the password to those secrets.
pub open spec fn keys_generated_from(name: Seq<char>, email: Seq<char>, password: Seq<u8>, keys: GeneratedKeysView) -> bool {
    exists|
        signing_key: Seq<u8>,
        x25519_secret: Seq<u8>,
        salt: Seq<u8>,
        nonce: Seq<u8>,
        x25519_salt: Seq<u8>,
        x25519_nonce: Seq<u8>,
    |
        signing_key.len() == 32 && x25519_secret.len() == 32 && salt.len() == SALT_LEN && nonce.len()
            == XNONCE_LEN && x25519_salt.len() == SALT_LEN && x25519_nonce.len() == XNONCE_LEN
            && #[trigger] generated_keys(
            name,
            email,
            password,
            signing_key,
            x25519_secret,
            salt,
            nonce,
            x25519_salt,
            x25519_nonce,
        ) == Ok::<GeneratedKeysView, (ErrorKind, Seq<char>)>(keys) && generated_backups_open(
            name,
            email,
            password,
            signing_key,
            x25519_secret,
            salt,
            nonce,
            x25519_salt,
            x25519_nonce,
            keys,
        )
}

/// Whether generating keys for `name` and `email` under `password` is
/// refused with `e` for some secrets, salts and nonces.
pub open spec fn generation_refused_with(name: Seq<char>, email: Seq<char>, password: Seq<u8>, e: (ErrorKind, Seq<char>)) -> bool {
    exists|
        signing_key: Seq<u8>,
        x25519_secret: Seq<u8>,
        salt: Seq<u8>,
        nonce: Seq<u8>,
        x25519_salt: Seq<u8>,
        x25519_nonce: Seq<u8>,
    |
        signing_key.len() == 32 && x25519_secret.len() == 32 && salt.len() == SALT_LEN && nonce.len()
            == XNONCE_LEN && x25519_salt.len() == SALT_LEN && x25519_nonce.len() == XNONCE_LEN
            && #[trigger] generated_keys(
            name,
            email,
            password,
            signing_key,
            x25519_secret,
            salt,
            nonce,
            x25519_salt,
            x25519_nonce,
        ) == Err::<GeneratedKeysView, (ErrorKind, Seq<char>)>(e)
}

/// The result of the encryption workflow: the keys generated for it, if
/// any, and the sealed file.
pub struct EncryptedWorkflow {
    pub keys: Option<GeneratedKeys>,
    pub sealed: Vec<u8>,
}

/// Encrypts a file.  With an existing public key (its Base64 text), the
/// file is sealed for it, unsigned.  Otherwise a new key pair is generated
/// and backed up under `backup_password`, and the file is signed with the
/// new Ed25519 key and sealed for the new X25519 key.
pub fn cmd_encrypt_workflow(
    filename: &str,
    plaintext: &[u8],
    name: &str,
    email: &str,
    backup_password: &str,
    existing_key: Option<&str>,
) -> (r: Result<EncryptedWorkflow, CryptError>)
    ensures
        existing_key matches Some(t) ==> (public_key_refusal(t@) matches Some(x) ==> (r matches Err(e)
            && e@ == x)),
        existing_key matches Some(t) ==> (public_key_refusal(t@) is None && plaintext@.len()
            > MAX_AEAD_MESSAGE_LEN ==> (r matches Err(e) && e@ == (
            ErrorKind::Crypto,
            "Encryption failed: aead::Error"@,
        ))),
        existing_key matches Some(t) ==> (public_key_refusal(t@) is None && plaintext@.len()
            <= MAX_AEAD_MESSAGE_LEN ==> (r matches Ok(w) && w.keys is None && is_sealing_of(
            w.sealed@,
            public_key_of(t@),
            filename@,
            plaintext@,
            None,
        ))),
        existing_key is None ==> (r matches Ok(w) ==> (w.keys matches Some(k) && keys_generated_from(
            name@,
            email@,
            backup_password.spec_bytes(),
            k@,
        ) && is_sealing_of(w.sealed@, k.x25519_public@, filename@, plaintext@, Some(k.signing_key@)))),
        existing_key is None ==> (r matches Err(x) ==> ((plaintext@.len() > MAX_AEAD_MESSAGE_LEN && x@ == (
            ErrorKind::Crypto,
            "Encryption failed: aead::Error"@,
        )) || generation_refused_with(name@, email@, backup_password.spec_bytes(), x@))),
{
    match existing_key {
        Some(text) => {
            let sealed = match cmd_encrypt_file_with_key(text, filename, plaintext, None) {
                Ok(s) => s,
                Err(e) => return Err(e),
            };
            Ok(EncryptedWorkflow { keys: None, sealed })
        },
        None => {
            let generated = generate_and_store_keys(name, email, backup_password);
            proof {
                let (sk, xs, salt, nonce, x_salt, x_nonce) = choose|
                    sk: Seq<u8>,
                    xs: Seq<u8>,
                    salt: Seq<u8>,
                    nonce: Seq<u8>,
                    x_salt: Seq<u8>,
                    x_nonce: Seq<u8>,
                |
                    sk.len() == 32 && xs.len() == 32 && salt.len() == SALT_LEN && nonce.len() == XNONCE_LEN
                        && x_salt.len() == SALT_LEN && x_nonce.len() == XNONCE_LEN && outcome_is(
                        generated,
                        #[trigger] generated_keys(
                            name@,
                            email@,
                            backup_password.spec_bytes(),
                            sk,
                            xs,
                            salt,
                            nonce,
                            x_salt,
                            x_nonce,
                        ),
                    ) && (generated matches Ok(g) ==> generated_backups_open(
                        name@,
                        email@,
                        backup_password.spec_bytes(),
                        sk,
                        xs,
                        salt,
                        nonce,
                        x_salt,
                        x_nonce,
                        g@,
                    ));
                let g = generated_keys(
                    name@,
                    email@,
                    backup_password.spec_bytes(),
                    sk,
                    xs,
                    salt,
                    nonce,
                    x_salt,
                    x_nonce,
                );
                if generated is Ok {
                    let k = generated->Ok_0;
                    assert(g == Ok::<GeneratedKeysView, (ErrorKind, Seq<char>)>(k@));
                    assert(keys_generated_from(name@, email@, backup_password.spec_bytes(), k@));
                } else {
                    let e = generated->Err_0;
                    assert(g == Err::<GeneratedKeysView, (ErrorKind, Seq<char>)>(e@));
                    assert(generation_refused_with(name@, email@, backup_password.spec_bytes(), e@));
                }
            }
            let keys = match generated {
                Ok(k) => k,
                Err(e) => return Err(e),
            };
            let sealed = match encrypt_for_recipient(
                &keys.x25519_public,
                filename,
                plaintext,
                Some(&keys.signing_key),
            ) {
                Ok(s) => s,
                Err(e) => return Err(e),
            };
            Ok(EncryptedWorkflow { keys: Some(keys), sealed })
        },
    }
}

} // verus!
