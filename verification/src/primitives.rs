//! The outside primitives that the key store and the file format rest on:
//! X25519, Ed25519, SHA-256, Base64, the operating system's random source
//! and the wiping of secrets.  Each is a trusted wrapper of one outside
//! call; the names below stand for what the call computes, and Base64
//! encoding, which a few lines state, is spelled out.

use base64::Engine as _;
use ed25519_dalek::{Signer, Verifier};
use pkcs8::EncodePrivateKey;
use rand::RngCore;
use sha2::Digest;
use vstd::prelude::*;
use zeroize::Zeroize;

verus! {

/// The X25519 public key of a 32-byte secret (the base point times the
/// clamped secret).
pub uninterp spec fn x25519_public(secret: Seq<u8>) -> [u8; 32];

/// The X25519 shared secret of a 32-byte secret and a peer's public key.
pub uninterp spec fn x25519_shared(secret: Seq<u8>, public: Seq<u8>) -> Seq<u8>;

/// The Ed25519 verifying key of a 32-byte secret key.
pub uninterp spec fn ed25519_public(secret: Seq<u8>) -> [u8; 32];

/// The 64-byte Ed25519 signature of a message under a 32-byte secret key.
pub uninterp spec fn ed25519_sign(secret: Seq<u8>, msg: Seq<u8>) -> [u8; 64];

/// Whether 32 bytes decode to an Ed25519 verifying key.
pub uninterp spec fn ed25519_key_decodes(key: Seq<u8>) -> bool;

/// Whether a signature of a message verifies under a verifying key.
pub uninterp spec fn ed25519_verifies(key: Seq<u8>, msg: Seq<u8>, sig: Seq<u8>) -> bool;

/// The PKCS#8 DER document of a 32-byte Ed25519 secret key, or the text of
/// the encoder's refusal.
pub uninterp spec fn ed25519_pkcs8_der(secret: Seq<u8>) -> Result<Seq<u8>, Seq<char>>;

/// The SHA-256 digest of `data`.
pub uninterp spec fn sha256(data: Seq<u8>) -> Seq<u8>;

/// The Base64 digit for the 6-bit value `v` (RFC 4648): `A`-`Z`, `a`-`z`,
/// `0`-`9`, then `+` and `/`, or `-` and `_` in the URL-safe alphabet.
pub open spec fn base64_digit(v: int, url_safe: bool) -> char {
    if v < 26 {
        (65 + v) as char
    } else if v < 52 {
        (97 + v - 26) as char
    } else if v < 62 {
        (48 + v - 52) as char
    } else if v == 62 {
        if url_safe { '-' } else { '+' }
    } else {
        if url_safe { '_' } else { '/' }
    }
}

/// Base64 of `data`: four digits per three bytes, high bits first; a last
/// group of one or two bytes gives two or three digits, followed by `=`
/// padding to four when `pad` holds.
pub open spec fn base64(data: Seq<u8>, url_safe: bool, pad: bool) -> Seq<char>
    decreases data.len(),
{
    if data.len() >= 3 {
        let (a, b, c) = (data[0] as int, data[1] as int, data[2] as int);
        seq![
            base64_digit(a / 4, url_safe),
            base64_digit((a % 4) * 16 + b / 16, url_safe),
            base64_digit((b % 16) * 4 + c / 64, url_safe),
            base64_digit(c % 64, url_safe),
        ] + base64(data.subrange(3, data.len() as int), url_safe, pad)
    } else if data.len() == 2 {
        let (a, b) = (data[0] as int, data[1] as int);
        seq![
            base64_digit(a / 4, url_safe),
            base64_digit((a % 4) * 16 + b / 16, url_safe),
            base64_digit((b % 16) * 4, url_safe),
        ] + if pad { seq!['='] } else { Seq::empty() }
    } else if data.len() == 1 {
        let a = data[0] as int;
        seq![base64_digit(a / 4, url_safe), base64_digit((a % 4) * 16, url_safe)] + if pad {
            seq!['=', '=']
        } else {
            Seq::empty()
        }
    } else {
        Seq::empty()
    }
}

/// Standard Base64 (RFC 4648 alphabet, with padding) of `data`.
pub open spec fn base64_standard(data: Seq<u8>) -> Seq<char> {
    base64(data, false, true)
}

/// URL-safe Base64 without padding of `data`.
pub open spec fn base64_url_no_pad(data: Seq<u8>) -> Seq<char> {
    base64(data, true, false)
}

/// What standard Base64 decoding of `text` gives: the bytes, or the text of
/// the decoding error where `text` is not standard Base64.
pub uninterp spec fn base64_standard_decode(text: Seq<char>) -> Result<Seq<u8>, Seq<char>>;


/// `x25519_dalek::PublicKey::from(&StaticSecret::from(secret))`: the public
/// key named `x25519_public`.
#[verifier::external_body]
pub(crate) fn x25519_public_key(secret: &[u8; 32]) -> (r: [u8; 32])
    ensures
        r == x25519_public(secret@),
{
    x25519_dalek::PublicKey::from(&x25519_dalek::StaticSecret::from(*secret)).to_bytes()
}

/// `StaticSecret::diffie_hellman` with the peer key `PublicKey::from`
/// bytes: the shared secret named `x25519_shared`.  Scalar multiplication
/// commutes, so a secret and the public key of a second secret give what
/// the second secret and the public key of the first give.
#[verifier::external_body]
pub(crate) fn x25519_diffie_hellman(secret: &[u8; 32], their_public: &[u8; 32]) -> (r: [u8; 32])
    ensures
        r@ == x25519_shared(secret@, their_public@),
        forall|b: Seq<u8>| b.len() == 32 && *their_public == #[trigger] x25519_public(b) ==> r@ == x25519_shared(b, x25519_public(secret@)@),
{
    let secret = x25519_dalek::StaticSecret::from(*secret);
    let shared = secret.diffie_hellman(&x25519_dalek::PublicKey::from(*their_public));
    *shared.as_bytes()
}

/// `SigningKey::from_bytes(secret).verifying_key().to_bytes()`: the key
/// named `ed25519_public`.
#[verifier::external_body]
pub(crate) fn ed25519_verifying_key(secret: &[u8; 32]) -> (r: [u8; 32])
    ensures
        r == ed25519_public(secret@),
{
    ed25519_dalek::SigningKey::from_bytes(secret).verifying_key().to_bytes()
}

/// `SigningKey::from_bytes(secret).sign(msg).to_bytes()`: Ed25519 signing
/// is deterministic, and the signature is the one named `ed25519_sign`.
#[verifier::external_body]
pub(crate) fn ed25519_sign_message(secret: &[u8; 32], msg: &[u8]) -> (r: [u8; 64])
    ensures
        r == ed25519_sign(secret@, msg@),
{
    ed25519_dalek::SigningKey::from_bytes(secret).sign(msg).to_bytes()
}

/// `VerifyingKey::from_bytes`, then `Verifier::verify` of
/// `Signature::from_bytes(sig)`: an error with the decoding failure's text
/// where the key does not decode (with the crate's default `std` feature,
/// the `SignatureError` wraps the point decompression failure), else
/// whether the signature verifies.  A
/// verifying key of a secret always decodes, and the signature that
/// secret makes of a message always verifies.
#[verifier::external_body]
pub(crate) fn ed25519_check(key: &[u8; 32], msg: &[u8], sig: &[u8; 64]) -> (r: Result<bool, String>)
    ensures
        r is Ok <==> ed25519_key_decodes(key@),
        r matches Err(e) ==> e@ == "signature error: Cannot decompress Edwards point"@,
        r matches Ok(b) ==> b == ed25519_verifies(key@, msg@, sig@),
        r is Err ==> forall|s: Seq<u8>| s.len() == 32 ==> *key != #[trigger] ed25519_public(s),
        r matches Ok(b) ==> b || forall|s: Seq<u8>| s.len() == 32 ==> !(*key == #[trigger] ed25519_public(s) && *sig == ed25519_sign(s, msg@)),
{
    match ed25519_dalek::VerifyingKey::from_bytes(key) {
        Ok(vk) => Ok(vk.verify(msg, &ed25519_dalek::Signature::from_bytes(sig)).is_ok()),
        Err(e) => Err(e.to_string()),
    }
}

/// `SigningKey::to_pkcs8_der` of the key from `secret`: the document, or
/// the failure's text, as named by `ed25519_pkcs8_der`.
#[verifier::external_body]
pub(crate) fn ed25519_to_pkcs8(secret: &[u8; 32]) -> (r: Result<Vec<u8>, String>)
    ensures
        r matches Ok(d) ==> (ed25519_pkcs8_der(secret@) matches Ok(x) && x == d@),
        r matches Err(e) ==> (ed25519_pkcs8_der(secret@) matches Err(x) && x == e@),
{
    match ed25519_dalek::SigningKey::from_bytes(secret).to_pkcs8_der() {
        Ok(doc) => Ok(doc.as_bytes().to_vec()),
        Err(e) => Err(e.to_string()),
    }
}

/// `Sha256::digest`: the digest named `sha256`.
#[verifier::external_body]
pub(crate) fn sha256_digest(data: &[u8]) -> (r: [u8; 32])
    ensures
        r@ == sha256(data@),
{
    sha2::Sha256::digest(data).into()
}

/// `general_purpose::STANDARD.encode`: the standard Base64 text of `data`.
#[verifier::external_body]
pub(crate) fn base64_encode(data: &[u8]) -> (r: String)
    ensures
        r@ == base64_standard(data@),
{
    base64::engine::general_purpose::STANDARD.encode(data)
}

/// `general_purpose::URL_SAFE_NO_PAD.encode`: the URL-safe Base64 text of
/// `data`, without padding.
#[verifier::external_body]
pub(crate) fn base64_encode_url(data: &[u8]) -> (r: String)
    ensures
        r@ == base64_url_no_pad(data@),
{
    base64::engine::general_purpose::URL_SAFE_NO_PAD.encode(data)
}

/// `general_purpose::STANDARD.decode`: the bytes, or the decoding error's
/// text, as named by `base64_standard_decode`.  Decoding the
/// standard encoding of some bytes gives those bytes back.
#[verifier::external_body]
pub(crate) fn base64_decode(text: &str) -> (r: Result<Vec<u8>, String>)
    ensures
        r matches Ok(d) ==> (base64_standard_decode(text@) matches Ok(x) && x == d@),
        r matches Err(e) ==> (base64_standard_decode(text@) matches Err(x) && x == e@),
        r is Err ==> forall|b: Seq<u8>| text@ != #[trigger] base64_standard(b),
        r matches Ok(d) ==> forall|b: Seq<u8>| text@ == #[trigger] base64_standard(b) ==> d@ == b,
{
    base64::engine::general_purpose::STANDARD.decode(text).map_err(|e| e.to_string())
}

/// `n` bytes from the operating system's random source (`OsRng`).
/// Nothing is known of them but their number.
#[verifier::external_body]
pub(crate) fn random_bytes(n: usize) -> (r: Vec<u8>)
    ensures
        r@.len() == n,
{
    let mut v = vec![0u8; n];
    chacha20poly1305::aead::OsRng.fill_bytes(&mut v);
    v
}

/// `Zeroize::zeroize` of a byte vector: its bytes are overwritten with
/// zeros and it is left empty.
#[verifier::external_body]
pub(crate) fn wipe_vec(v: &mut Vec<u8>)
    ensures
        final(v)@.len() == 0,
{
    v.zeroize();
}

/// `Zeroize::zeroize` of a 32-byte key: every byte becomes zero.
#[verifier::external_body]
pub(crate) fn wipe_key(k: &mut [u8; 32])
    ensures
        final(k)@ == Seq::new(32, |i: int| 0u8),
{
    k.zeroize();
}

} // verus!
