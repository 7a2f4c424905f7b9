//! The key store: an Ed25519 signing key and an X25519 encryption key, their
//! public halves in Base64, and their private halves backed up as
//! password-protected blobs; and the opening of such a backup.

use vstd::prelude::*;
use vstd::string::*;
use vstd::utf8::encode_utf8;

use crate::blob::{
    blob_bytes, blob_bytes_of, blob_fault_text, lemma_unpack_of_pack, pack_encrypted_blob,
    parse_blob, unpack_encrypted_blob, BlobFault, BlobFields,
};
use crate::bytes::copy_array;
use crate::constants::{
    DEFAULT_ARGON_M_COST_KIB, DEFAULT_ARGON_P_COST, DEFAULT_ARGON_T_COST, MAX_AEAD_MESSAGE_LEN,
    MAX_ARGON_M_COST_KIB,
    MAX_ARGON_P_COST, MAX_ARGON_T_COST, SALT_LEN, XNONCE_LEN,
};
use crate::crypto::{
    argon2_accepts, argon2id_key, decrypt_outcome, decrypt_with_aad, derive_key,
    derive_key_outcome, encrypt_outcome, encrypt_with_aad, xchacha20poly1305_seal,
};
use crate::error::{outcome_is, CryptError, ErrorKind};
use crate::primitives::{
    base64_encode, base64_encode_url, base64_standard, base64_url_no_pad, ed25519_pkcs8_der,
    ed25519_public, ed25519_to_pkcs8, ed25519_verifying_key, random_bytes, sha256, wipe_key,
    wipe_vec, x25519_public, x25519_public_key,
};
use crate::text::hex;
use crate::utils::{compute_fingerprint, escape_aad, escape_aad_field};

verus! {

/// A freshly generated pair of keys, with what the key store keeps of them.
pub struct GeneratedKeys {
    /// Upper-case hexadecimal SHA-256 of the Ed25519 verifying key.
    pub fingerprint: String,
    /// The Ed25519 secret key.
    pub signing_key: [u8; 32],
    /// The Ed25519 verifying key in standard Base64.
    pub public_key_text: String,
    /// The X25519 public key.
    pub x25519_public: [u8; 32],
    /// The X25519 public key in standard Base64.
    pub x25519_public_text: String,
    /// The PKCS#8 document of the Ed25519 key, backed up under the password.
    pub private_key_blob: Vec<u8>,
    /// The X25519 secret key, backed up under the password.
    pub x25519_private_blob: Vec<u8>,
}

/// The contents of generated keys, as values.
pub struct GeneratedKeysView {
    pub fingerprint: Seq<char>,
    pub signing_key: Seq<u8>,
    pub public_key_text: Seq<char>,
    pub x25519_public: Seq<u8>,
    pub x25519_public_text: Seq<char>,
    pub private_key_blob: Seq<u8>,
    pub x25519_private_blob: Seq<u8>,
}

impl View for GeneratedKeys {
    type V = GeneratedKeysView;

    open spec fn view(&self) -> GeneratedKeysView {
        GeneratedKeysView {
            fingerprint: self.fingerprint@,
            signing_key: self.signing_key@,
            public_key_text: self.public_key_text@,
            x25519_public: self.x25519_public@,
            x25519_public_text: self.x25519_public_text@,
            private_key_blob: self.private_key_blob@,
            x25519_private_blob: self.x25519_private_blob@,
        }
    }
}

/// The fingerprint of a public key: its SHA-256 digest in upper-case
/// hexadecimal.
pub open spec fn fingerprint_of(public_key: Seq<u8>) -> Seq<char> {
    hex(sha256(public_key), true)
}

/// The associated data that binds a backup to its owner and key.
pub open spec fn owner_aad_text(name: Seq<char>, email: Seq<char>, fingerprint: Seq<char>) -> Seq<char> {
    "name="@ + escape_aad(name) + "|email="@ + escape_aad(email) + "|fp="@ + fingerprint
}

/// The associated data of the X25519 backup.
pub open spec fn x25519_aad_text(name: Seq<char>, email: Seq<char>, fingerprint: Seq<char>) -> Seq<char> {
    owner_aad_text(name, email, fingerprint) + "|type=x25519"@
}

/// `secret` backed up under `password`: a blob with the default Argon2
/// costs, the salt, nonce and associated data, and `secret` encrypted under
/// the key that Argon2id derives from password and salt.
pub open spec fn backup_blob(password: Seq<u8>, salt: Seq<u8>, nonce: Seq<u8>, aad: Seq<u8>, secret: Seq<u8>) -> Seq<u8> {
    blob_bytes(
        DEFAULT_ARGON_M_COST_KIB,
        DEFAULT_ARGON_T_COST,
        DEFAULT_ARGON_P_COST,
        salt,
        nonce,
        aad,
        xchacha20poly1305_seal(
            argon2id_key(password, salt, DEFAULT_ARGON_M_COST_KIB, DEFAULT_ARGON_T_COST, DEFAULT_ARGON_P_COST),
            nonce,
            secret,
            aad,
        ),
    )
}

/// What backing up a secret gives: the blob, or the refusal of the key
/// derivation or of the encryption.
pub open spec fn backup_outcome(password: Seq<u8>, salt: Seq<u8>, nonce: Seq<u8>, aad: Seq<u8>, secret: Seq<u8>) -> Result<
    Seq<u8>,
    (ErrorKind, Seq<char>),
> {
    match derive_key_outcome(password, salt, DEFAULT_ARGON_M_COST_KIB, DEFAULT_ARGON_T_COST, DEFAULT_ARGON_P_COST) {
        Err(e) => Err(e),
        Ok(k) => match encrypt_outcome(k, nonce, secret, aad) {
            Err(e) => Err(e),
            Ok(ct) => Ok(
                blob_bytes(DEFAULT_ARGON_M_COST_KIB, DEFAULT_ARGON_T_COST, DEFAULT_ARGON_P_COST, salt, nonce, aad, ct),
            ),
        },
    }
}

/// The keys built from the given secrets, salts and nonces: the Ed25519 key
/// backed up as its PKCS#8 document, the X25519 key as its 32 bytes, each
/// with associated data that names the owner and the fingerprint.
pub open spec fn generated_keys(
    name: Seq<char>,
    email: Seq<char>,
    password: Seq<u8>,
    signing_key: Seq<u8>,
    x25519_secret: Seq<u8>,
    salt: Seq<u8>,
    nonce: Seq<u8>,
    x25519_salt: Seq<u8>,
    x25519_nonce: Seq<u8>,
) -> Result<GeneratedKeysView, (ErrorKind, Seq<char>)> {
    let verifying_key = ed25519_public(signing_key)@;
    let fingerprint = fingerprint_of(verifying_key);
    let x25519_pub = x25519_public(x25519_secret)@;
    match ed25519_pkcs8_der(signing_key) {
        Err(m) => Err((ErrorKind::Key, "PKCS#8 encoding failed: "@ + m)),
        Ok(der) => match backup_outcome(
            password,
            salt,
            nonce,
            encode_utf8(owner_aad_text(name, email, fingerprint)),
            der,
        ) {
            Err(e) => Err(e),
            Ok(blob) => match backup_outcome(
                password,
                x25519_salt,
                x25519_nonce,
                encode_utf8(x25519_aad_text(name, email, fingerprint)),
                x25519_secret,
            ) {
                Err(e) => Err(e),
                Ok(x25519_blob) => Ok(
                    GeneratedKeysView {
                        fingerprint,
                        signing_key,
                        public_key_text: base64_standard(verifying_key),
                        x25519_public: x25519_pub,
                        x25519_public_text: base64_standard(x25519_pub),
                        private_key_blob: blob,
                        x25519_private_blob: x25519_blob,
                    },
                ),
            },
        },
    }
}

/// Keys generated under a password hold backups of their two secrets under
/// that password: the PKCS#8 document of the Ed25519 key and the X25519
/// secret, each with associated data that names the owner and the
/// fingerprint; the X25519 public key is that of the backed-up secret, and
/// Argon2 accepted the password with both salts.
pub proof fn lemma_generated_keys_backups(
    name: Seq<char>,
    email: Seq<char>,
    password: Seq<u8>,
    signing_key: Seq<u8>,
    x25519_secret: Seq<u8>,
    salt: Seq<u8>,
    nonce: Seq<u8>,
    x25519_salt: Seq<u8>,
    x25519_nonce: Seq<u8>,
)
    requires
        generated_keys(name, email, password, signing_key, x25519_secret, salt, nonce, x25519_salt, x25519_nonce) is Ok,
    ensures
        ({
            let k = generated_keys(
                name,
                email,
                password,
                signing_key,
                x25519_secret,
                salt,
                nonce,
                x25519_salt,
                x25519_nonce,
            )->Ok_0;
            let fingerprint = fingerprint_of(ed25519_public(signing_key)@);
            &&& ed25519_pkcs8_der(signing_key) is Ok
            &&& k.fingerprint == fingerprint
            &&& k.signing_key == signing_key
            &&& k.x25519_public == x25519_public(x25519_secret)@
            &&& k.private_key_blob == backup_blob(
                password,
                salt,
                nonce,
                encode_utf8(owner_aad_text(name, email, fingerprint)),
                ed25519_pkcs8_der(signing_key)->Ok_0,
            )
            &&& k.x25519_private_blob == backup_blob(
                password,
                x25519_salt,
                x25519_nonce,
                encode_utf8(x25519_aad_text(name, email, fingerprint)),
                x25519_secret,
            )
            &&& argon2_accepts(password, salt, DEFAULT_ARGON_M_COST_KIB, DEFAULT_ARGON_P_COST)
            &&& argon2_accepts(password, x25519_salt, DEFAULT_ARGON_M_COST_KIB, DEFAULT_ARGON_P_COST)
        }),
{
}

/// Whether `blob` is a backup under `password` that reads as the default
/// Argon2 costs with `salt`, `nonce` and `aad`, and that opens to `secret`
/// (in whatever context a malformed blob would be reported).
pub open spec fn backup_opens_to(
    password: Seq<u8>,
    blob: Seq<u8>,
    salt: Seq<u8>,
    nonce: Seq<u8>,
    aad: Seq<u8>,
    secret: Seq<u8>,
) -> bool {
    &&& parse_blob(blob) matches Ok(v) && v.mem_kib == DEFAULT_ARGON_M_COST_KIB && v.t_cost
        == DEFAULT_ARGON_T_COST && v.p_cost == DEFAULT_ARGON_P_COST && v.salt == salt && v.nonce
        == nonce && v.aad == aad
    &&& forall|context: Seq<char>|
        #[trigger] backup_open_outcome(password, blob, context) == Ok::<Seq<u8>, (ErrorKind, Seq<char>)>(
            secret,
        )
}

/// Whether the backups of generated keys open under the password to their
/// secrets: the PKCS#8 document of the Ed25519 key and the X25519 secret,
/// whose public key the keys hold.  A backup whose associated data (name,
/// e-mail, fingerprint) outgrows its 16-bit length prefix cannot be read
/// back, and is left out.
pub open spec fn generated_backups_open(
    name: Seq<char>,
    email: Seq<char>,
    password: Seq<u8>,
    signing_key: Seq<u8>,
    x25519_secret: Seq<u8>,
    salt: Seq<u8>,
    nonce: Seq<u8>,
    x25519_salt: Seq<u8>,
    x25519_nonce: Seq<u8>,
    keys: GeneratedKeysView,
) -> bool {
    let aad = encode_utf8(owner_aad_text(name, email, keys.fingerprint));
    let x25519_aad = encode_utf8(x25519_aad_text(name, email, keys.fingerprint));
    &&& aad.len() <= 65535 ==> backup_opens_to(
        password,
        keys.private_key_blob,
        salt,
        nonce,
        aad,
        ed25519_pkcs8_der(signing_key)->Ok_0,
    )
    &&& x25519_aad.len() <= 65535 ==> backup_opens_to(
        password,
        keys.x25519_private_blob,
        x25519_salt,
        x25519_nonce,
        x25519_aad,
        x25519_secret,
    )
    &&& keys.x25519_public == x25519_public(x25519_secret)@
}

fn backup_secret(password: &str, salt: &[u8], nonce: &[u8], aad: &[u8], secret: &[u8]) -> (r: Result<
    Vec<u8>,
    CryptError,
>)
    requires
        nonce@.len() == XNONCE_LEN,
    ensures
        outcome_is(r, backup_outcome(password.spec_bytes(), salt@, nonce@, aad@, secret@)),
        salt@.len() <= 255 && aad@.len() <= 65535 ==> (r matches Ok(b) ==> backup_opens_to(
            password.spec_bytes(),
            b@,
            salt@,
            nonce@,
            aad@,
            secret@,
        )),
{
    let mut key = match derive_key(
        password,
        salt,
        DEFAULT_ARGON_M_COST_KIB,
        DEFAULT_ARGON_T_COST,
        DEFAULT_ARGON_P_COST,
    ) {
        Ok(k) => k,
        Err(e) => return Err(e),
    };
    let sealed = encrypt_with_aad(&key, nonce, secret, aad);
    let ghost k = key@;
    wipe_key(&mut key);
    match sealed {
        Ok(ct) => {
            let blob = pack_encrypted_blob(
                DEFAULT_ARGON_M_COST_KIB,
                DEFAULT_ARGON_T_COST,
                DEFAULT_ARGON_P_COST,
                salt,
                nonce,
                aad,
                ct.as_slice(),
            );
            let blob_len: usize = blob.len();
            proof {
                let pw = password.spec_bytes();
                if salt@.len() <= 255 && aad@.len() <= 65535 {
                    assert(blob@ == backup_blob(pw, salt@, nonce@, aad@, secret@));
                    lemma_backup_blob_parses(pw, salt@, nonce@, aad@, secret@);
                    assert forall|context: Seq<char>|
                        #[trigger] backup_open_outcome(pw, blob@, context) == Ok::<
                            Seq<u8>,
                            (ErrorKind, Seq<char>),
                        >(secret@) by {
                        assert(k == argon2id_key(
                            pw,
                            salt@,
                            DEFAULT_ARGON_M_COST_KIB,
                            DEFAULT_ARGON_T_COST,
                            DEFAULT_ARGON_P_COST,
                        ));
                    }
                }
            }
            Ok(blob)
        },
        Err(e) => Err(e),
    }
}

/// Builds the keys of `generated_keys` from the given secrets, salts and
/// nonces, backing both private keys up under `backup_password`; each
/// backup opens under that password to its secret.
pub fn build_keys(
    name: &str,
    email: &str,
    backup_password: &str,
    signing_key: &[u8; 32],
    x25519_secret: &[u8; 32],
    salt: &[u8; 16],
    nonce: &[u8; 24],
    x25519_salt: &[u8; 16],
    x25519_nonce: &[u8; 24],
) -> (r: Result<GeneratedKeys, CryptError>)
    ensures
        outcome_is(
            r,
            generated_keys(
                name@,
                email@,
                backup_password.spec_bytes(),
                signing_key@,
                x25519_secret@,
                salt@,
                nonce@,
                x25519_salt@,
                x25519_nonce@,
            ),
        ),
        r matches Ok(g) ==> generated_backups_open(
            name@,
            email@,
            backup_password.spec_bytes(),
            signing_key@,
            x25519_secret@,
            salt@,
            nonce@,
            x25519_salt@,
            x25519_nonce@,
            g@,
        ),
{
    let mut der = match ed25519_to_pkcs8(signing_key) {
        Ok(d) => d,
        Err(m) => {
            return Err(CryptError::Key(String::from_str("PKCS#8 encoding failed: ").concat(m.as_str())));
        },
    };
    let verifying_key = ed25519_verifying_key(signing_key);
    let fingerprint = compute_fingerprint(verifying_key.as_slice());
    let public_key_text = base64_encode(verifying_key.as_slice());
    let x25519_pub = x25519_public_key(x25519_secret);
    let x25519_public_text = base64_encode(x25519_pub.as_slice());
    let aad_text = String::from_str("name=").concat(escape_aad_field(name).as_str()).concat(
        "|email=",
    ).concat(escape_aad_field(email).as_str()).concat("|fp=").concat(fingerprint.as_str());
    let x25519_aad = String::from_str(aad_text.as_str()).concat("|type=x25519");
    proof {
        assert(aad_text@ == owner_aad_text(name@, email@, fingerprint@));
        assert(x25519_aad@ == x25519_aad_text(name@, email@, fingerprint@));
    }
    let blob = backup_secret(
        backup_password,
        salt.as_slice(),
        nonce.as_slice(),
        aad_text.as_str().as_bytes(),
        der.as_slice(),
    );
    wipe_vec(&mut der);
    let private_key_blob = match blob {
        Ok(b) => b,
        Err(e) => return Err(e),
    };
    let x25519_private_blob = match backup_secret(
        backup_password,
        x25519_salt.as_slice(),
        x25519_nonce.as_slice(),
        x25519_aad.as_str().as_bytes(),
        x25519_secret.as_slice(),
    ) {
        Ok(b) => b,
        Err(e) => return Err(e),
    };
    Ok(
        GeneratedKeys {
            fingerprint,
            signing_key: *signing_key,
            public_key_text,
            x25519_public: x25519_pub,
            x25519_public_text,
            private_key_blob,
            x25519_private_blob,
        },
    )
}

/// 32 bytes from the operating system's random source; nothing is known
/// of them but their number, which the type fixes.
fn random_array32() -> (r: [u8; 32]) {
    let mut v = random_bytes(32);
    let a: [u8; 32] = copy_array(v.as_slice(), 0);
    wipe_vec(&mut v);
    a
}

/// 16 bytes from the operating system's random source; nothing is known
/// of them but their number, which the type fixes.
fn random_array16() -> (r: [u8; 16]) {
    let v = random_bytes(16);
    copy_array(v.as_slice(), 0)
}

/// 24 bytes from the operating system's random source; nothing is known
/// of them but their number, which the type fixes.
fn random_array24() -> (r: [u8; 24]) {
    let v = random_bytes(24);
    copy_array(v.as_slice(), 0)
}

/// Generates an Ed25519 signing key and an X25519 encryption key, with
/// salts and nonces, from the operating system's random source, and backs
/// both private keys up under `backup_password`, so that each backup opens
/// under that password to its secret.
pub fn generate_and_store_keys(name: &str, email: &str, backup_password: &str) -> (r: Result<
    GeneratedKeys,
    CryptError,
>)
    ensures
        exists|
            signing_key: Seq<u8>,
            x25519_secret: Seq<u8>,
            salt: Seq<u8>,
            nonce: Seq<u8>,
            x25519_salt: Seq<u8>,
            x25519_nonce: Seq<u8>,
        |
            signing_key.len() == 32 && x25519_secret.len() == 32 && salt.len() == SALT_LEN
                && nonce.len() == XNONCE_LEN && x25519_salt.len() == SALT_LEN && x25519_nonce.len()
                == XNONCE_LEN && outcome_is(
                r,
                #[trigger] generated_keys(
                    name@,
                    email@,
                    backup_password.spec_bytes(),
                    signing_key,
                    x25519_secret,
                    salt,
                    nonce,
                    x25519_salt,
                    x25519_nonce,
                ),
            ) && (r matches Ok(g) ==> generated_backups_open(
                name@,
                email@,
                backup_password.spec_bytes(),
                signing_key,
                x25519_secret,
                salt,
                nonce,
                x25519_salt,
                x25519_nonce,
                g@,
            )),
{
    let mut signing_key = random_array32();
    let mut x25519_secret = random_array32();
    let salt = random_array16();
    let nonce = random_array24();
    let x25519_salt = random_array16();
    let x25519_nonce = random_array24();
    let ghost sk = signing_key@;
    let ghost xs = x25519_secret@;
    let r = build_keys(
        name,
        email,
        backup_password,
        &signing_key,
        &x25519_secret,
        &salt,
        &nonce,
        &x25519_salt,
        &x25519_nonce,
    );
    wipe_key(&mut signing_key);
    wipe_key(&mut x25519_secret);
    proof {
        assert(outcome_is(
            r,
            generated_keys(name@, email@, backup_password.spec_bytes(), sk, xs, salt@, nonce@, x25519_salt@, x25519_nonce@),
        ));
        assert(r matches Ok(g) ==> generated_backups_open(
            name@,
            email@,
            backup_password.spec_bytes(),
            sk,
            xs,
            salt@,
            nonce@,
            x25519_salt@,
            x25519_nonce@,
            g@,
        ));
    }
    r
}

/// A fresh backup password: 48 random bytes in URL-safe Base64 without
/// padding.
pub fn generate_backup_password() -> (r: String)
    ensures
        exists|b: Seq<u8>| b.len() == 48 && r@ == #[trigger] base64_url_no_pad(b),
{
    let mut rnd = random_bytes(48);
    let s = base64_encode_url(rnd.as_slice());
    let ghost b = rnd@;
    wipe_vec(&mut rnd);
    proof {
        assert(s@ == base64_url_no_pad(b));
    }
    s
}

/// Whether a backup of `secret` reads back and opens: the salt and the
/// associated data fit their length prefixes, the nonce has XChaCha20's
/// length, the secret is within what encryption accepts and its ciphertext
/// has the length that sealing gives (the secret's and the 16-byte tag's),
/// and Argon2 accepts password and salt.
pub open spec fn backup_fits(password: Seq<u8>, salt: Seq<u8>, nonce: Seq<u8>, aad: Seq<u8>, secret: Seq<u8>) -> bool {
    &&& salt.len() <= 255
    &&& nonce.len() == XNONCE_LEN
    &&& aad.len() <= 65535
    &&& secret.len() <= MAX_AEAD_MESSAGE_LEN
    &&& xchacha20poly1305_seal(
        argon2id_key(password, salt, DEFAULT_ARGON_M_COST_KIB, DEFAULT_ARGON_T_COST, DEFAULT_ARGON_P_COST),
        nonce,
        secret,
        aad,
    ).len() == secret.len() + 16
    &&& argon2_accepts(password, salt, DEFAULT_ARGON_M_COST_KIB, DEFAULT_ARGON_P_COST)
}

/// A backup blob reads back as its fields.
pub proof fn lemma_backup_blob_parses(password: Seq<u8>, salt: Seq<u8>, nonce: Seq<u8>, aad: Seq<u8>, secret: Seq<u8>)
    requires
        backup_fits(password, salt, nonce, aad, secret),
        backup_blob(password, salt, nonce, aad, secret).len() <= u64::MAX,
    ensures
        parse_blob(backup_blob(password, salt, nonce, aad, secret)) == Ok::<BlobFields, BlobFault>(
            BlobFields {
                mem_kib: DEFAULT_ARGON_M_COST_KIB,
                t_cost: DEFAULT_ARGON_T_COST,
                p_cost: DEFAULT_ARGON_P_COST,
                salt,
                nonce,
                aad,
                ciphertext: xchacha20poly1305_seal(
                    argon2id_key(password, salt, DEFAULT_ARGON_M_COST_KIB, DEFAULT_ARGON_T_COST, DEFAULT_ARGON_P_COST),
                    nonce,
                    secret,
                    aad,
                ),
            },
        ),
{
    let v = BlobFields {
        mem_kib: DEFAULT_ARGON_M_COST_KIB,
        t_cost: DEFAULT_ARGON_T_COST,
        p_cost: DEFAULT_ARGON_P_COST,
        salt,
        nonce,
        aad,
        ciphertext: xchacha20poly1305_seal(
            argon2id_key(password, salt, DEFAULT_ARGON_M_COST_KIB, DEFAULT_ARGON_T_COST, DEFAULT_ARGON_P_COST),
            nonce,
            secret,
            aad,
        ),
    };
    assert(blob_bytes_of(v) == backup_blob(password, salt, nonce, aad, secret));
    lemma_unpack_of_pack(v, Seq::empty());
    assert(blob_bytes_of(v) + Seq::<u8>::empty() =~= blob_bytes_of(v));
}

/// What opening a backup blob under a password gives: the secret, or the
/// first refusal (a malformed blob, reported after `context`; a key
/// derivation that is refused; a ciphertext that does not authenticate).
pub open spec fn backup_open_outcome(password: Seq<u8>, data: Seq<u8>, context: Seq<char>) -> Result<
    Seq<u8>,
    (ErrorKind, Seq<char>),
> {
    match parse_blob(data) {
        Err(f) => Err((ErrorKind::Format, context + "Format error: "@ + blob_fault_text(f))),
        Ok(v) => match derive_key_outcome(password, v.salt, v.mem_kib, v.t_cost, v.p_cost) {
            Err(e) => Err(e),
            Ok(k) => decrypt_outcome(k, v.nonce, v.ciphertext, v.aad),
        },
    }
}

/// Whether opening `data` under `password` reaches decryption only with a
/// nonce of XChaCha20's length; XChaCha20-Poly1305 panics on any other.
pub open spec fn backup_nonce_fits(password: Seq<u8>, data: Seq<u8>) -> bool {
    parse_blob(data) matches Ok(v) ==> (derive_key_outcome(password, v.salt, v.mem_kib, v.t_cost, v.p_cost) is Ok
        ==> v.nonce.len() == XNONCE_LEN)
}

/// Whether opening `data` under `password` reaches decryption only with a
/// nonce of XChaCha20's length, as `backup_nonce_fits` says; telling needs
/// no key derivation, only the costs and lengths that Argon2 checks.
pub fn backup_nonce_ok(password: &str, data: &[u8]) -> (b: bool)
    ensures
        b == backup_nonce_fits(password.spec_bytes(), data@),
{
    match unpack_encrypted_blob(data) {
        Err(_) => true,
        Ok(v) => {
            let password_len: u64 = password.as_bytes().len() as u64;
            let salt_len: u64 = v.salt.len() as u64;
            let derives = v.mem_kib <= MAX_ARGON_M_COST_KIB && 1 <= v.t_cost && v.t_cost
                <= MAX_ARGON_T_COST && 1 <= v.p_cost && v.p_cost <= MAX_ARGON_P_COST && v.mem_kib
                >= 8 * v.p_cost && password_len <= 0xffff_ffff && 8 <= salt_len && salt_len
                <= 0xffff_ffff;
            !derives || v.nonce.len() == XNONCE_LEN
        },
    }
}

/// Opens a backup blob under `password`; a malformed blob is reported after
/// `context`.  A backup of a secret opens to that secret.
pub(crate) fn open_backup(password: &str, data: &[u8], context: &str) -> (r: Result<Vec<u8>, CryptError>)
    requires
        backup_nonce_fits(password.spec_bytes(), data@),
    ensures
        outcome_is(r, backup_open_outcome(password.spec_bytes(), data@, context@)),
        forall|salt: Seq<u8>, nonce: Seq<u8>, aad: Seq<u8>, secret: Seq<u8>|
            backup_fits(password.spec_bytes(), salt, nonce, aad, secret) && data@ == #[trigger] backup_blob(
                password.spec_bytes(),
                salt,
                nonce,
                aad,
                secret,
            ) ==> (r matches Ok(p) && p@ == secret),
{
    let ghost pw = password.spec_bytes();
    let data_len: usize = data.len();
    assert(data@.len() <= u64::MAX);
    let blob = match unpack_encrypted_blob(data) {
        Ok(b) => b,
        Err(e) => {
            let m = String::from_str(context).concat(e.message().as_str());
            proof {
                assert forall|salt: Seq<u8>, nonce: Seq<u8>, aad: Seq<u8>, secret: Seq<u8>|
                    backup_fits(pw, salt, nonce, aad, secret) && data@ == #[trigger] backup_blob(
                        pw,
                        salt,
                        nonce,
                        aad,
                        secret,
                    ) implies false by {
                    lemma_backup_blob_parses(pw, salt, nonce, aad, secret);
                }
                let f = parse_blob(data@)->Err_0;
                assert(m@ =~= context@ + "Format error: "@ + blob_fault_text(f));
            }
            return Err(CryptError::Format(m));
        },
    };
    let mut key = match derive_key(password, blob.salt.as_slice(), blob.mem_kib, blob.t_cost, blob.p_cost) {
        Ok(k) => k,
        Err(e) => {
            proof {
                assert forall|salt: Seq<u8>, nonce: Seq<u8>, aad: Seq<u8>, secret: Seq<u8>|
                    backup_fits(pw, salt, nonce, aad, secret) && data@ == #[trigger] backup_blob(
                        pw,
                        salt,
                        nonce,
                        aad,
                        secret,
                    ) implies false by {
                    lemma_backup_blob_parses(pw, salt, nonce, aad, secret);
                }
            }
            return Err(e);
        },
    };
    let r = decrypt_with_aad(&key, blob.nonce.as_slice(), blob.ciphertext.as_slice(), blob.aad.as_slice());
    proof {
        assert forall|salt: Seq<u8>, nonce: Seq<u8>, aad: Seq<u8>, secret: Seq<u8>|
            backup_fits(pw, salt, nonce, aad, secret) && data@ == #[trigger] backup_blob(
                pw,
                salt,
                nonce,
                aad,
                secret,
            ) implies (r matches Ok(p) && p@ == secret) by {
            lemma_backup_blob_parses(pw, salt, nonce, aad, secret);
            assert(blob.ciphertext@ == xchacha20poly1305_seal(key@, blob.nonce@, secret, blob.aad@));
        }
    }
    wipe_key(&mut key);
    r
}

/// Decrypts a private key backup with its password: the PKCS#8 document
/// (or whatever was backed up).  A backup of a secret opens to that secret.
pub fn cmd_decrypt_backup(password: &str, data: &[u8]) -> (r: Result<Vec<u8>, CryptError>)
    requires
        backup_nonce_fits(password.spec_bytes(), data@),
    ensures
        outcome_is(r, backup_open_outcome(password.spec_bytes(), data@, "Invalid blob format: "@)),
        forall|salt: Seq<u8>, nonce: Seq<u8>, aad: Seq<u8>, secret: Seq<u8>|
            backup_fits(password.spec_bytes(), salt, nonce, aad, secret) && data@ == #[trigger] backup_blob(
                password.spec_bytes(),
                salt,
                nonce,
                aad,
                secret,
            ) ==> (r matches Ok(p) && p@ == secret),
{
    open_backup(password, data, "Invalid blob format: ")
}

} // verus!
