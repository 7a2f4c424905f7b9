//! Key derivation and authenticated encryption: Argon2id from a password,
//! HKDF-SHA256 from a shared secret, XChaCha20-Poly1305 with associated data.

use chacha20poly1305::aead::{Aead, KeyInit};
use vstd::prelude::*;
use vstd::string::*;

use crate::constants::{
    KEY_LEN, MAX_AEAD_MESSAGE_LEN, MAX_ARGON_M_COST_KIB, MAX_ARGON_P_COST, MAX_ARGON_T_COST,
};
use crate::error::{outcome_is, CryptError, ErrorKind};
use crate::text::{decimal, decimal_string};

verus! {

/// The 32-byte Argon2id (version 0x13) output for a password, salt and
/// memory, time and parallelism costs.
pub uninterp spec fn argon2id_key(
    password: Seq<u8>,
    salt: Seq<u8>,
    mem_kib: u32,
    t_cost: u32,
    p_cost: u32,
) -> Seq<u8>;

/// XChaCha20-Poly1305 encryption of `msg` under `key` and `nonce`, with
/// associated data `aad`: the ciphertext followed by the 16-byte tag.
pub uninterp spec fn xchacha20poly1305_seal(
    key: Seq<u8>,
    nonce: Seq<u8>,
    msg: Seq<u8>,
    aad: Seq<u8>,
) -> Seq<u8>;

/// XChaCha20-Poly1305 decryption: the plaintext, or `None` where the tag does
/// not authenticate the ciphertext and associated data.
pub uninterp spec fn xchacha20poly1305_open(
    key: Seq<u8>,
    nonce: Seq<u8>,
    ct: Seq<u8>,
    aad: Seq<u8>,
) -> Option<Seq<u8>>;

/// The 32 bytes of HKDF-SHA256 output for a salt, input key material and
/// info string.
pub uninterp spec fn hkdf_sha256_key(salt: Seq<u8>, ikm: Seq<u8>, info: Seq<u8>) -> Seq<u8>;

/// How Argon2 names its refusal of a password or salt length.
pub open spec fn argon2_input_refusal(password: Seq<u8>, salt: Seq<u8>) -> Seq<char> {
    if password.len() > 0xffff_ffff {
        "password is too long"@
    } else if salt.len() < 8 {
        "salt is too short"@
    } else {
        "salt is too long"@
    }
}

/// Which step of Argon2 refused its input, with the refusal's text.
enum Argon2Failure {
    Params(String),
    Hash(String),
}

/// Argon2id, version 0x13, with a 32-byte output: `argon2::Params::new`,
/// `Argon2::new` and `Argon2::hash_password_into`.  As the crate's source
/// shows, for the costs admitted here `Params::new` refuses exactly a memory
/// cost under 8 KiB per lane ("memory cost is too small"), and
/// `hash_password_into` exactly a password or salt longer than 2^32 - 1
/// bytes or a salt shorter than 8 bytes; otherwise the key is the Argon2id
/// output named `argon2id_key`.
#[verifier::external_body]
fn argon2id_hash(
    password: &[u8],
    salt: &[u8],
    mem_kib: u32,
    t_cost: u32,
    p_cost: u32,
) -> (r: Result<[u8; 32], Argon2Failure>)
    requires
        mem_kib <= MAX_ARGON_M_COST_KIB,
        1 <= t_cost <= MAX_ARGON_T_COST,
        1 <= p_cost <= MAX_ARGON_P_COST,
    ensures
        (r matches Err(Argon2Failure::Params(_))) <==> mem_kib < 8 * p_cost,
        r matches Err(Argon2Failure::Params(e)) ==> e@ == "memory cost is too small"@,
        r is Ok <==> argon2_accepts(password@, salt@, mem_kib, p_cost),
        r matches Err(Argon2Failure::Hash(e)) ==> e@ == argon2_input_refusal(password@, salt@),
        r matches Ok(k) ==> k@ == argon2id_key(password@, salt@, mem_kib, t_cost, p_cost),
{
    let params = match argon2::Params::new(mem_kib, t_cost, p_cost, Some(KEY_LEN)) {
        Ok(p) => p,
        Err(e) => return Err(Argon2Failure::Params(e.to_string())),
    };
    let argon2 = argon2::Argon2::new(argon2::Algorithm::Argon2id, argon2::Version::V0x13, params);
    let mut out = [0u8; 32];
    match argon2.hash_password_into(password, salt, &mut out) {
        Ok(()) => Ok(out),
        Err(e) => Err(Argon2Failure::Hash(e.to_string())),
    }
}

/// The message for a memory cost above the accepted maximum.
pub open spec fn mem_cost_text(mem_kib: u32) -> Seq<char> {
    "Argon2 mem_kib "@ + decimal(mem_kib as nat) + " exceeds maximum allowed "@ + decimal(
        MAX_ARGON_M_COST_KIB as nat,
    )
}

/// The message for a time cost outside `[1, MAX_ARGON_T_COST]`.
pub open spec fn t_cost_text(t_cost: u32) -> Seq<char> {
    "Argon2 t_cost "@ + decimal(t_cost as nat) + " out of valid range [1, "@ + decimal(
        MAX_ARGON_T_COST as nat,
    ) + "]"@
}

/// The message for a parallelism cost outside `[1, MAX_ARGON_P_COST]`.
pub open spec fn p_cost_text(p_cost: u32) -> Seq<char> {
    "Argon2 p_cost "@ + decimal(p_cost as nat) + " out of valid range [1, "@ + decimal(
        MAX_ARGON_P_COST as nat,
    ) + "]"@
}

/// The text of the refusal of a key derivation whose costs are in range.
pub open spec fn argon2_refusal_text(password: Seq<u8>, salt: Seq<u8>, mem_kib: u32, p_cost: u32) -> Seq<char> {
    if mem_kib < 8 * p_cost {
        "Invalid Argon2 params: "@ + "memory cost is too small"@
    } else {
        "Argon2 key derivation failed: "@ + argon2_input_refusal(password, salt)
    }
}

/// Whether Argon2 accepts a derivation whose costs are in range.
pub open spec fn argon2_accepts(password: Seq<u8>, salt: Seq<u8>, mem_kib: u32, p_cost: u32) -> bool {
    mem_kib >= 8 * p_cost && password.len() <= 0xffff_ffff && 8 <= salt.len() <= 0xffff_ffff
}

fn concat3(a: &str, b: &str, c: &str) -> (r: String)
    ensures
        r@ == a@ + b@ + c@,
{
    String::from_str(a).concat(b).concat(c)
}

/// What deriving a key gives: the Argon2id key, or the refusal.  Costs
/// (from a blob) are checked first, in this order: memory at most
/// `MAX_ARGON_M_COST_KIB`, time in `[1, MAX_ARGON_T_COST]`, parallelism in
/// `[1, MAX_ARGON_P_COST]`; then Argon2 itself may refuse.
pub open spec fn derive_key_outcome(
    password: Seq<u8>,
    salt: Seq<u8>,
    mem_kib: u32,
    t_cost: u32,
    p_cost: u32,
) -> Result<Seq<u8>, (ErrorKind, Seq<char>)> {
    if mem_kib > MAX_ARGON_M_COST_KIB {
        Err((ErrorKind::Key, mem_cost_text(mem_kib)))
    } else if t_cost == 0 || t_cost > MAX_ARGON_T_COST {
        Err((ErrorKind::Key, t_cost_text(t_cost)))
    } else if p_cost == 0 || p_cost > MAX_ARGON_P_COST {
        Err((ErrorKind::Key, p_cost_text(p_cost)))
    } else if argon2_accepts(password, salt, mem_kib, p_cost) {
        Ok(argon2id_key(password, salt, mem_kib, t_cost, p_cost))
    } else {
        Err((ErrorKind::Key, argon2_refusal_text(password, salt, mem_kib, p_cost)))
    }
}

/// For costs in range that Argon2 accepts (memory at least 8 KiB per lane,
/// password and salt of lengths it takes), the derived key is the Argon2id
/// key for exactly the given memory, time and parallelism costs.
pub proof fn lemma_derive_key_uses_costs(password: Seq<u8>, salt: Seq<u8>, mem_kib: u32, t_cost: u32, p_cost: u32)
    requires
        mem_kib <= MAX_ARGON_M_COST_KIB,
        1 <= t_cost <= MAX_ARGON_T_COST,
        1 <= p_cost <= MAX_ARGON_P_COST,
        mem_kib >= 8 * p_cost,
        password.len() <= 0xffff_ffff,
        8 <= salt.len() <= 0xffff_ffff,
    ensures
        derive_key_outcome(password, salt, mem_kib, t_cost, p_cost) == Ok::<
            Seq<u8>,
            (ErrorKind, Seq<char>),
        >(argon2id_key(password, salt, mem_kib, t_cost, p_cost)),
{
}

/// Derives a 32-byte key from a password with Argon2id, after checking the
/// costs as `derive_key_outcome` says.
pub fn derive_key(
    password: &str,
    salt: &[u8],
    mem_kib: u32,
    t_cost: u32,
    p_cost: u32,
) -> (r: Result<[u8; 32], CryptError>)
    ensures
        outcome_is(r, derive_key_outcome(password.spec_bytes(), salt@, mem_kib, t_cost, p_cost)),
{
    if mem_kib > MAX_ARGON_M_COST_KIB {
        let m = concat3("Argon2 mem_kib ", decimal_string(mem_kib).as_str(), " exceeds maximum allowed ")
            .concat(decimal_string(MAX_ARGON_M_COST_KIB).as_str());
        return Err(CryptError::Key(m));
    }
    if t_cost == 0 || t_cost > MAX_ARGON_T_COST {
        let m = concat3("Argon2 t_cost ", decimal_string(t_cost).as_str(), " out of valid range [1, ")
            .concat(decimal_string(MAX_ARGON_T_COST).as_str()).concat("]");
        return Err(CryptError::Key(m));
    }
    if p_cost == 0 || p_cost > MAX_ARGON_P_COST {
        let m = concat3("Argon2 p_cost ", decimal_string(p_cost).as_str(), " out of valid range [1, ")
            .concat(decimal_string(MAX_ARGON_P_COST).as_str()).concat("]");
        return Err(CryptError::Key(m));
    }
    match argon2id_hash(password.as_bytes(), salt, mem_kib, t_cost, p_cost) {
        Ok(k) => Ok(k),
        Err(Argon2Failure::Params(e)) => {
            Err(CryptError::Key(String::from_str("Invalid Argon2 params: ").concat(e.as_str())))
        },
        Err(Argon2Failure::Hash(e)) => {
            Err(CryptError::Key(String::from_str("Argon2 key derivation failed: ").concat(e.as_str())))
        },
    }
}

/// `XChaCha20Poly1305::encrypt` with a `Payload` of message and associated
/// data.  As the aead, chacha20poly1305 and chacha20 sources show, for a
/// message of at most `MAX_AEAD_MESSAGE_LEN` bytes (longer ones exhaust the
/// keystream, and the cipher panics) it returns the ciphertext with the
/// 16-byte tag appended, which decryption under the same key, nonce and
/// associated data gives back as the message.
#[verifier::external_body]
fn xchacha_seal(key: &[u8; 32], nonce: &[u8], msg: &[u8], aad: &[u8]) -> (r: Option<Vec<u8>>)
    requires
        nonce@.len() == 24,
        msg@.len() <= MAX_AEAD_MESSAGE_LEN,
    ensures
        r is Some,
        r matches Some(c) ==> c@ == xchacha20poly1305_seal(key@, nonce@, msg@, aad@),
        r matches Some(c) ==> c@.len() == msg@.len() + 16,
        r matches Some(c) ==> xchacha20poly1305_open(key@, nonce@, c@, aad@) == Some(msg@),
{
    let cipher = chacha20poly1305::XChaCha20Poly1305::new(chacha20poly1305::Key::from_slice(key));
    let xnonce = chacha20poly1305::XNonce::from_slice(nonce);
    cipher.encrypt(xnonce, chacha20poly1305::aead::Payload { msg, aad }).ok()
}

/// `XChaCha20Poly1305::decrypt` with a `Payload` of ciphertext and
/// associated data: the plaintext where the tag authenticates ciphertext and
/// associated data under key and nonce.  It refuses a ciphertext shorter
/// than the tag, and, as for any AEAD, gives back the message of a
/// ciphertext that `encrypt` produced with the same key, nonce and data.
/// A ciphertext of more than `MAX_AEAD_MESSAGE_LEN` bytes besides the tag
/// would exhaust the keystream once authenticated, and the cipher panics.
#[verifier::external_body]
fn xchacha_open(key: &[u8; 32], nonce: &[u8], ct: &[u8], aad: &[u8]) -> (r: Option<Vec<u8>>)
    requires
        nonce@.len() == 24,
        ct@.len() <= MAX_AEAD_MESSAGE_LEN + 16,
    ensures
        r matches Some(p) ==> xchacha20poly1305_open(key@, nonce@, ct@, aad@) == Some(p@),
        r is None ==> xchacha20poly1305_open(key@, nonce@, ct@, aad@) is None,
        ct@.len() < 16 ==> r is None,
        r is None ==> forall|m: Seq<u8>| ct@ != #[trigger] xchacha20poly1305_seal(key@, nonce@, m, aad@) || m.len() > MAX_AEAD_MESSAGE_LEN,
        r matches Some(p) ==> forall|m: Seq<u8>| ct@ == #[trigger] xchacha20poly1305_seal(key@, nonce@, m, aad@) && m.len() <= MAX_AEAD_MESSAGE_LEN ==> p@ == m,
{
    let cipher = chacha20poly1305::XChaCha20Poly1305::new(chacha20poly1305::Key::from_slice(key));
    let xnonce = chacha20poly1305::XNonce::from_slice(nonce);
    cipher.decrypt(xnonce, chacha20poly1305::aead::Payload { msg: ct, aad }).ok()
}

/// What encrypting gives: the ciphertext with its tag, or the refusal of a
/// message longer than `MAX_AEAD_MESSAGE_LEN`.
pub open spec fn encrypt_outcome(key: Seq<u8>, nonce: Seq<u8>, plaintext: Seq<u8>, aad: Seq<u8>) -> Result<
    Seq<u8>,
    (ErrorKind, Seq<char>),
> {
    if plaintext.len() <= MAX_AEAD_MESSAGE_LEN {
        Ok(xchacha20poly1305_seal(key, nonce, plaintext, aad))
    } else {
        Err((ErrorKind::Crypto, "Encryption failed: aead::Error"@))
    }
}

/// Encrypts `plaintext` with XChaCha20-Poly1305 under `key` and the 24-byte
/// `nonce`, authenticating `aad` with it.
pub fn encrypt_with_aad(key: &[u8; 32], nonce: &[u8], plaintext: &[u8], aad: &[u8]) -> (r: Result<
    Vec<u8>,
    CryptError,
>)
    requires
        nonce@.len() == 24,
    ensures
        outcome_is(r, encrypt_outcome(key@, nonce@, plaintext@, aad@)),
        r matches Ok(c) ==> c@.len() == plaintext@.len() + 16,
        r matches Ok(c) ==> xchacha20poly1305_open(key@, nonce@, c@, aad@) == Some(plaintext@),
{
    let len: u64 = plaintext.len() as u64;
    if len > MAX_AEAD_MESSAGE_LEN {
        return Err(CryptError::Crypto(String::from_str("Encryption failed: aead::Error")));
    }
    match xchacha_seal(key, nonce, plaintext, aad) {
        Some(c) => Ok(c),
        None => Err(CryptError::Crypto(String::from_str("Encryption failed: aead::Error"))),
    }
}

/// What decrypting gives: the plaintext, or the refusal of a ciphertext
/// that does not authenticate or that is longer than any sealed message of
/// at most `MAX_AEAD_MESSAGE_LEN` bytes.
pub open spec fn decrypt_outcome(key: Seq<u8>, nonce: Seq<u8>, ciphertext: Seq<u8>, aad: Seq<u8>) -> Result<
    Seq<u8>,
    (ErrorKind, Seq<char>),
> {
    if ciphertext.len() > MAX_AEAD_MESSAGE_LEN + 16 {
        Err((ErrorKind::Crypto, decrypt_failure_text()))
    } else {
        match xchacha20poly1305_open(key, nonce, ciphertext, aad) {
            Some(p) => Ok(p),
            None => Err((ErrorKind::Crypto, decrypt_failure_text())),
        }
    }
}

/// Decrypts and authenticates `ciphertext` with XChaCha20-Poly1305 under
/// `key`, the 24-byte `nonce` and the associated data `aad`.  Whatever
/// `encrypt_with_aad` produced is decrypted back to its plaintext.
pub fn decrypt_with_aad(key: &[u8; 32], nonce: &[u8], ciphertext: &[u8], aad: &[u8]) -> (r: Result<
    Vec<u8>,
    CryptError,
>)
    requires
        nonce@.len() == 24,
    ensures
        outcome_is(r, decrypt_outcome(key@, nonce@, ciphertext@, aad@)),
        forall|m: Seq<u8>|
            #![trigger xchacha20poly1305_seal(key@, nonce@, m, aad@)]
            ciphertext@ == xchacha20poly1305_seal(key@, nonce@, m, aad@) && m.len()
                <= MAX_AEAD_MESSAGE_LEN && ciphertext@.len() == m.len() + 16 ==> (r matches Ok(v)
                && v@ == m),
{
    let len: u64 = ciphertext.len() as u64;
    if len > MAX_AEAD_MESSAGE_LEN + 16 {
        return Err(
            CryptError::Crypto(
                String::from_str("Decryption failed — wrong password or file tampered"),
            ),
        );
    }
    match xchacha_open(key, nonce, ciphertext, aad) {
        Some(p) => Ok(p),
        None => Err(
            CryptError::Crypto(
                String::from_str("Decryption failed — wrong password or file tampered"),
            ),
        ),
    }
}

/// The message of a failed decryption.
pub open spec fn decrypt_failure_text() -> Seq<char> {
    "Decryption failed — wrong password or file tampered"@
}

/// HKDF-SHA256 (`Hkdf::<Sha256>::new` with a salt, then `expand` into 32
/// bytes, which is within the 255-block limit and so cannot fail): the
/// output named `hkdf_sha256_key`.
#[verifier::external_body]
fn hkdf_sha256_32(salt: &[u8], ikm: &[u8; 32], info: &[u8]) -> (r: [u8; 32])
    ensures
        r@ == hkdf_sha256_key(salt@, ikm@, info@),
{
    let hk = hkdf::Hkdf::<sha2::Sha256>::new(Some(salt), ikm);
    let mut okm = [0u8; 32];
    hk.expand(info, &mut okm).expect("32 bytes is within the HKDF-SHA256 output limit");
    okm
}

/// Derives the 32-byte symmetric key of a file from an X25519 shared secret
/// with HKDF-SHA256.
pub fn derive_symmetric_key_from_shared_secret(
    shared_secret: &[u8; 32],
    salt: &[u8],
    info: &[u8],
) -> (r: [u8; 32])
    ensures
        r@ == hkdf_sha256_key(salt@, shared_secret@, info@),
{
    hkdf_sha256_32(salt, shared_secret, info)
}

} // verus!
