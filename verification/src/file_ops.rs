//! Sealing a file for a recipient's X25519 public key: an ephemeral key
//! agreement, a file key from HKDF-SHA256, XChaCha20-Poly1305 over the file
//! with associated data that names it, and an optional Ed25519 signature of
//! the plaintext, all packed as a public-key encrypted file.

use vstd::prelude::*;
use vstd::string::*;
use vstd::utf8::encode_utf8;

use crate::bytes::copy_array;
use crate::constants::MAX_AEAD_MESSAGE_LEN;
use crate::crypto::{
    derive_symmetric_key_from_shared_secret, encrypt_with_aad, hkdf_sha256_key,
    xchacha20poly1305_seal,
};
use crate::error::{outcome_is, CryptError, ErrorKind};
use crate::primitives::{
    base64_decode, base64_standard_decode, ed25519_public, ed25519_sign, ed25519_sign_message,
    ed25519_verifying_key, random_bytes, wipe_key, wipe_vec, x25519_diffie_hellman,
    x25519_public, x25519_public_key, x25519_shared,
};
use crate::pubenc::{
    lemma_unpack_of_pack_pubenc, pack_pubenc_blob, parse_pubenc, pubenc_bytes, pubenc_bytes_of,
    PubencFault, PubencFields, PubencSignature,
};
use crate::text::{hex, hex_string, push_char, trim, trim_white_space};
use crate::utils::{escape_aad, escape_aad_field};

verus! {

/// The HKDF info string that binds a file key to its use
/// ("yacrypt-file-encryption-v1").
pub const FILE_KEY_INFO: [u8; 26] = [
    121, 97, 99, 114, 121, 112, 116, 45, 102, 105, 108, 101, 45, 101, 110, 99, 114, 121, 112, 116,
    105, 111, 110, 45, 118, 49,
];

/// The associated data of a sealed file, as text: the escaped file name, the
/// ephemeral public key and, for a signed file, the signer's verifying key,
/// both in lower-case hexadecimal.
pub open spec fn file_aad_text(filename: Seq<char>, ephemeral_pub: Seq<u8>, signer: Option<Seq<u8>>) -> Seq<char> {
    let base = "file="@ + escape_aad(filename) + "|ephemeral_pub="@ + hex(
        ephemeral_pub,
        false,
    );
    match signer {
        Some(vk) => base + "|sig_vk="@ + hex(vk, false),
        None => base,
    }
}

/// The verifying key of an optional signing key.
pub open spec fn signer_of(signing_key: Option<Seq<u8>>) -> Option<Seq<u8>> {
    match signing_key {
        Some(k) => Some(ed25519_public(k)@),
        None => None,
    }
}

/// The signature block of a file signed with `signing_key`, if any.
pub open spec fn file_signature(signing_key: Option<Seq<u8>>, plaintext: Seq<u8>) -> Option<(Seq<u8>, Seq<u8>)> {
    match signing_key {
        Some(k) => Some((ed25519_public(k)@, ed25519_sign(k, plaintext)@)),
        None => None,
    }
}

/// The associated data of a file sealed with the ephemeral secret
/// `ephemeral`, as UTF-8 bytes.
pub open spec fn file_aad(filename: Seq<char>, ephemeral: Seq<u8>, signing_key: Option<Seq<u8>>) -> Seq<u8> {
    encode_utf8(
        file_aad_text(filename, x25519_public(ephemeral)@, signer_of(signing_key)),
    )
}

/// The key that encrypts a file: HKDF-SHA256 of the X25519 shared secret,
/// salted with the ephemeral public key.
pub open spec fn file_key(shared: Seq<u8>, ephemeral_pub: Seq<u8>) -> Seq<u8> {
    hkdf_sha256_key(ephemeral_pub, shared, FILE_KEY_INFO@)
}

/// The ciphertext of `plaintext` sealed for `recipient` with the ephemeral
/// secret `ephemeral` and the nonce `nonce`: XChaCha20-Poly1305 under the
/// file key, authenticating the file's associated data.
pub open spec fn file_ciphertext(
    recipient: Seq<u8>,
    ephemeral: Seq<u8>,
    nonce: Seq<u8>,
    filename: Seq<char>,
    plaintext: Seq<u8>,
    signing_key: Option<Seq<u8>>,
) -> Seq<u8> {
    xchacha20poly1305_seal(
        file_key(x25519_shared(ephemeral, recipient), x25519_public(ephemeral)@),
        nonce,
        plaintext,
        file_aad(filename, ephemeral, signing_key),
    )
}

/// The bytes of `plaintext` sealed for the public key `recipient`, with the
/// ephemeral secret `ephemeral` and the nonce `nonce`, under the name
/// `filename`, and signed with `signing_key` if one is given.
pub open spec fn sealed_file(
    recipient: Seq<u8>,
    ephemeral: Seq<u8>,
    nonce: Seq<u8>,
    filename: Seq<char>,
    plaintext: Seq<u8>,
    signing_key: Option<Seq<u8>>,
) -> Seq<u8> {
    pubenc_bytes(
        x25519_public(ephemeral)@,
        nonce,
        file_aad(filename, ephemeral, signing_key),
        file_ciphertext(recipient, ephemeral, nonce, filename, plaintext, signing_key),
        file_signature(signing_key, plaintext),
    )
}

/// Whether a file sealed with these values for `recipient` reads back and
/// opens: the ephemeral secret and the nonce have their fixed sizes, the
/// associated data fits its 16-bit length prefix, the plaintext is within
/// what XChaCha20-Poly1305 accepts, its ciphertext has the length that
/// sealing gives (the plaintext's and the 16-byte tag's), and a signing key
/// has Ed25519's 32 bytes.
pub open spec fn seal_fits(
    recipient: Seq<u8>,
    ephemeral: Seq<u8>,
    nonce: Seq<u8>,
    filename: Seq<char>,
    plaintext: Seq<u8>,
    signing_key: Option<Seq<u8>>,
) -> bool {
    &&& ephemeral.len() == 32
    &&& nonce.len() == 24
    &&& file_aad(filename, ephemeral, signing_key).len() <= 65535
    &&& plaintext.len() <= MAX_AEAD_MESSAGE_LEN
    &&& file_ciphertext(recipient, ephemeral, nonce, filename, plaintext, signing_key).len()
        == plaintext.len() + 16
    &&& signing_key matches Some(k) ==> k.len() == 32
}

/// A sealed file reads back as its parts: the ephemeral public key, the
/// nonce, the associated data, the ciphertext under the file key, and the
/// signature block.
pub proof fn lemma_sealed_file_parses(
    recipient: Seq<u8>,
    ephemeral: Seq<u8>,
    nonce: Seq<u8>,
    filename: Seq<char>,
    plaintext: Seq<u8>,
    signing_key: Option<Seq<u8>>,
)
    requires
        seal_fits(recipient, ephemeral, nonce, filename, plaintext, signing_key),
        sealed_file(recipient, ephemeral, nonce, filename, plaintext, signing_key).len() <= u64::MAX,
    ensures
        parse_pubenc(sealed_file(recipient, ephemeral, nonce, filename, plaintext, signing_key))
            == Ok::<PubencFields, PubencFault>(
            PubencFields {
                ephemeral_pub: x25519_public(ephemeral)@,
                nonce,
                aad: file_aad(filename, ephemeral, signing_key),
                ciphertext: file_ciphertext(recipient, ephemeral, nonce, filename, plaintext, signing_key),
                signature: file_signature(signing_key, plaintext),
            },
        ),
{
    let aad = file_aad(filename, ephemeral, signing_key);
    let v = PubencFields {
        ephemeral_pub: x25519_public(ephemeral)@,
        nonce,
        aad,
        ciphertext: file_ciphertext(recipient, ephemeral, nonce, filename, plaintext, signing_key),
        signature: file_signature(signing_key, plaintext),
    };
    assert(pubenc_bytes_of(v) == sealed_file(recipient, ephemeral, nonce, filename, plaintext, signing_key));
    lemma_unpack_of_pack_pubenc(v, Seq::empty());
    assert(pubenc_bytes_of(v) + Seq::<u8>::empty() =~= pubenc_bytes_of(v));
}

/// What sealing gives: the sealed file, or the refusal of a plaintext longer
/// than `MAX_AEAD_MESSAGE_LEN`.
pub open spec fn seal_outcome(
    recipient: Seq<u8>,
    ephemeral: Seq<u8>,
    nonce: Seq<u8>,
    filename: Seq<char>,
    plaintext: Seq<u8>,
    signing_key: Option<Seq<u8>>,
) -> Result<Seq<u8>, (ErrorKind, Seq<char>)> {
    if plaintext.len() <= MAX_AEAD_MESSAGE_LEN {
        Ok(sealed_file(recipient, ephemeral, nonce, filename, plaintext, signing_key))
    } else {
        Err((ErrorKind::Crypto, "Encryption failed: aead::Error"@))
    }
}

/// The value of an optional secret key.
pub open spec fn key_view(k: Option<&[u8; 32]>) -> Option<Seq<u8>> {
    match k {
        Some(k) => Some(k@),
        None => None,
    }
}

/// Seals `plaintext` for the X25519 public key `recipient` with the given
/// ephemeral secret and nonce; when a signing key is given, the plaintext
/// is signed and the verifying key is bound into the associated data.
pub fn seal_file_for_recipient(
    recipient: &[u8; 32],
    ephemeral: &[u8; 32],
    nonce: &[u8; 24],
    filename: &str,
    plaintext: &[u8],
    signing_key: Option<&[u8; 32]>,
) -> (r: Result<Vec<u8>, CryptError>)
    ensures
        outcome_is(
            r,
            seal_outcome(recipient@, ephemeral@, nonce@, filename@, plaintext@, key_view(signing_key)),
        ),
{
    let signature: Option<PubencSignature> = match signing_key {
        Some(sk) => Some(
            PubencSignature {
                verifying_key: ed25519_verifying_key(sk),
                signature: ed25519_sign_message(sk, plaintext),
            },
        ),
        None => None,
    };
    let ephemeral_pub = x25519_public_key(ephemeral);
    let mut shared = x25519_diffie_hellman(ephemeral, recipient);
    let mut key = derive_symmetric_key_from_shared_secret(
        &shared,
        ephemeral_pub.as_slice(),
        FILE_KEY_INFO.as_slice(),
    );
    let mut aad_text = String::from_str("file=").concat(escape_aad_field(filename).as_str()).concat(
        "|ephemeral_pub=",
    ).concat(hex_string(ephemeral_pub.as_slice(), false).as_str());
    match &signature {
        Some(sig) => {
            aad_text = aad_text.concat("|sig_vk=").concat(
                hex_string(sig.verifying_key.as_slice(), false).as_str(),
            );
        },
        None => {},
    }
    proof {
        assert(aad_text@ == file_aad_text(filename@, ephemeral_pub@, signer_of(key_view(signing_key))));
    }
    let aad: &[u8] = aad_text.as_str().as_bytes();
    let sealed = encrypt_with_aad(&key, nonce.as_slice(), plaintext, aad);
    wipe_key(&mut shared);
    wipe_key(&mut key);
    match sealed {
        Ok(ciphertext) => {
            let sig_ref: Option<&PubencSignature> = match &signature {
                Some(s) => Some(s),
                None => None,
            };
            Ok(pack_pubenc_blob(&ephemeral_pub, nonce, aad, &ciphertext, sig_ref))
        },
        Err(e) => Err(e),
    }
}

/// The refusal of the text of a recipient's public key file: text that is
/// not standard Base64 once trimmed, or that does not decode to 32 bytes.
pub open spec fn public_key_refusal(text: Seq<char>) -> Option<(ErrorKind, Seq<char>)> {
    match base64_standard_decode(trim(text)) {
        Err(e) => Some((ErrorKind::Key, "Failed to decode public key: "@ + e)),
        Ok(b) => if b.len() != 32 {
            Some((ErrorKind::Key, "Invalid X25519 public key length"@))
        } else {
            None
        },
    }
}

/// The public key that the text of a key file holds.
pub open spec fn public_key_of(text: Seq<char>) -> Seq<u8> {
    base64_standard_decode(trim(text))->Ok_0
}

/// Whether `sealed` is `plaintext` sealed for `recipient` under the name
/// `filename` (and signed with `signing_key`, if given) with some
/// ephemeral secret and nonce of their sizes.
pub open spec fn is_sealing_of(
    sealed: Seq<u8>,
    recipient: Seq<u8>,
    filename: Seq<char>,
    plaintext: Seq<u8>,
    signing_key: Option<Seq<u8>>,
) -> bool {
    exists|e: Seq<u8>, n: Seq<u8>|
        e.len() == 32 && n.len() == 24 && sealed == #[trigger] sealed_file(
            recipient,
            e,
            n,
            filename,
            plaintext,
            signing_key,
        )
}

/// Seals `plaintext` for `recipient` with a fresh ephemeral secret and
/// nonce from the operating system's random source.
pub fn encrypt_for_recipient(
    recipient: &[u8; 32],
    filename: &str,
    plaintext: &[u8],
    signing_key: Option<&[u8; 32]>,
) -> (r: Result<Vec<u8>, CryptError>)
    ensures
        plaintext@.len() > MAX_AEAD_MESSAGE_LEN ==> (r matches Err(e) && e@ == (
            ErrorKind::Crypto,
            "Encryption failed: aead::Error"@,
        )),
        plaintext@.len() <= MAX_AEAD_MESSAGE_LEN ==> (r matches Ok(sealed) && is_sealing_of(
            sealed@,
            recipient@,
            filename@,
            plaintext@,
            key_view(signing_key),
        )),
{
    let mut e_bytes = random_bytes(32);
    let n_bytes = random_bytes(24);
    let mut ephemeral: [u8; 32] = copy_array(e_bytes.as_slice(), 0);
    wipe_vec(&mut e_bytes);
    let nonce: [u8; 24] = copy_array(n_bytes.as_slice(), 0);
    let ghost e = ephemeral@;
    let r = seal_file_for_recipient(recipient, &ephemeral, &nonce, filename, plaintext, signing_key);
    wipe_key(&mut ephemeral);
    proof {
        if plaintext@.len() <= MAX_AEAD_MESSAGE_LEN {
            assert(r matches Ok(sealed) && sealed@ == sealed_file(recipient@, e, nonce@, filename@, plaintext@, key_view(signing_key)));
        }
    }
    r
}

/// Encrypts `plaintext` for the X25519 public key whose standard Base64
/// text (surrounding white space ignored) is `public_key_text`; the file is
/// known to the recipient as `filename`, and is signed when a signing key
/// is given.
pub fn cmd_encrypt_file_with_key(
    public_key_text: &str,
    filename: &str,
    plaintext: &[u8],
    signing_key: Option<&[u8; 32]>,
) -> (r: Result<Vec<u8>, CryptError>)
    ensures
        public_key_refusal(public_key_text@) matches Some(e) ==> (r matches Err(x) && x@ == e),
        public_key_refusal(public_key_text@) is None && plaintext@.len() > MAX_AEAD_MESSAGE_LEN ==> (
        r matches Err(x) && x@ == (ErrorKind::Crypto, "Encryption failed: aead::Error"@)),
        public_key_refusal(public_key_text@) is None && plaintext@.len() <= MAX_AEAD_MESSAGE_LEN ==> (
        r matches Ok(sealed) && is_sealing_of(
            sealed@,
            public_key_of(public_key_text@),
            filename@,
            plaintext@,
            key_view(signing_key),
        )),
{
    let trimmed = trim_white_space(public_key_text);
    let decoded = match base64_decode(trimmed.as_str()) {
        Ok(d) => d,
        Err(e) => {
            return Err(
                CryptError::Key(String::from_str("Failed to decode public key: ").concat(e.as_str())),
            );
        },
    };
    if decoded.len() != 32 {
        return Err(CryptError::Key(String::from_str("Invalid X25519 public key length")));
    }
    let recipient: [u8; 32] = copy_array(decoded.as_slice(), 0);
    proof {
        assert(decoded@.subrange(0, 32) =~= decoded@);
        assert(recipient@ == public_key_of(public_key_text@));
    }
    encrypt_for_recipient(&recipient, filename, plaintext, signing_key)
}

/// The default path of a file's encrypted copy: the file's own path with
/// `.pubenc` appended, so that `secret.txt` becomes `secret.txt.pubenc`.
pub fn default_encrypted_path(input: &str) -> (r: String)
    ensures
        r@ == input@ + ".pubenc"@,
{
    String::from_str(input).concat(".pubenc")
}

/// The index of the last `.` in `name`, or -1 where there is none.
pub open spec fn last_dot(name: Seq<char>) -> int
    decreases name.len(),
{
    if name.len() == 0 {
        -1
    } else if name.last() == '.' {
        name.len() - 1
    } else {
        last_dot(name.drop_last())
    }
}

/// The default file name of a decrypted copy: the encrypted file's name
/// without its `.pubenc` extension; a name with another extension (a `.`
/// after its first character) gets `decrypted` in place of that extension,
/// and a name without one gets `.decrypted` appended.  These are the
/// extension rules of `std::path::Path` for a file name.
pub open spec fn decrypted_name(name: Seq<char>) -> Seq<char> {
    if name.len() > 7 && name.subrange(name.len() - 7, name.len() as int) == ".pubenc"@ {
        name.subrange(0, name.len() - 7)
    } else if last_dot(name) > 0 {
        name.subrange(0, last_dot(name) + 1) + "decrypted"@
    } else {
        name + ".decrypted"@
    }
}

/// The default file name of the decrypted copy of the file named `name`,
/// as `decrypted_name` says.
pub fn default_decrypted_name(name: &str) -> (r: String)
    ensures
        r@ == decrypted_name(name@),
{
    let mut v: Vec<char> = Vec::new();
    for c in it: name.chars()
        invariant
            it.seq() == name@,
            v@ == name@.take(it.index() as int),
    {
        v.push(c);
        assert(name@.take(it.index() as int + 1) =~= name@.take(it.index() as int).push(c));
    }
    assert(name@.take(name@.len() as int) =~= name@);
    let n: usize = v.len();
    proof {
        reveal_strlit(".pubenc");
    }
    if n > 7 && v[n - 7] == '.' && v[n - 6] == 'p' && v[n - 5] == 'u' && v[n - 4] == 'b' && v[n - 3]
        == 'e' && v[n - 2] == 'n' && v[n - 1] == 'c' {
        assert(v@.subrange(n - 7, n as int) =~= ".pubenc"@);
        let mut r = String::new();
        let mut k: usize = 0;
        while k < n - 7
            invariant
                v@ == name@,
                n == v@.len(),
                n > 7,
                k <= n - 7,
                r@ == v@.subrange(0, k as int),
            decreases n - 7 - k,
        {
            push_char(&mut r, v[k]);
            k = k + 1;
            assert(r@ =~= v@.subrange(0, k as int));
        }
        return r;
    }
    proof {
        if n > 7 {
            if v@.subrange(n - 7, n as int) == ".pubenc"@ {
                assert(v@.subrange(n - 7, n as int)[0] == v@[n - 7]);
                assert(v@.subrange(n - 7, n as int)[1] == v@[n - 6]);
                assert(v@.subrange(n - 7, n as int)[2] == v@[n - 5]);
                assert(v@.subrange(n - 7, n as int)[3] == v@[n - 4]);
                assert(v@.subrange(n - 7, n as int)[4] == v@[n - 3]);
                assert(v@.subrange(n - 7, n as int)[5] == v@[n - 2]);
                assert(v@.subrange(n - 7, n as int)[6] == v@[n - 1]);
            }
        }
    }
    let mut j: usize = n;
    assert(v@.take(n as int) =~= v@);
    while j > 0 && v[j - 1] != '.'
        invariant
            v@ == name@,
            n == v@.len(),
            j <= n,
            last_dot(v@) == last_dot(v@.take(j as int)),
        decreases j,
    {
        assert(v@.take(j as int).drop_last() =~= v@.take(j - 1));
        j = j - 1;
    }
    let mut r = String::new();
    if j > 1 {
        let mut k: usize = 0;
        while k < j
            invariant
                v@ == name@,
                n == v@.len(),
                k <= j <= n,
                r@ == v@.subrange(0, k as int),
            decreases j - k,
        {
            push_char(&mut r, v[k]);
            k = k + 1;
            assert(r@ =~= v@.subrange(0, k as int));
        }
        r = r.concat("decrypted");
        r
    } else {
        r = String::from_str(name).concat(".decrypted");
        r
    }
}

} // verus!
