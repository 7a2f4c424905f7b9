//! The public-key encrypted file: an optional Ed25519 signature block, the
//! sender's ephemeral X25519 key, the nonce, associated data and ciphertext.
//!
//! Layout: PUBENC_MAGIC (5) | flags (1) | [verifying key (32) | signature (64),
//! when bit 0 of flags is set] | ephemeral public key (32) | nonce (24)
//! | aad_len (u16 BE) | aad | ct_len (u64 BE) | ciphertext.  Bytes after the
//! ciphertext are ignored.

use vstd::prelude::*;
use vstd::string::*;

use crate::bytes::{
    append_bytes, append_u16_be, append_u64_be, be16_at, be64_at, copy_array, copy_range,
    lemma_be16_reencode, lemma_be64_reencode, lemma_u16_roundtrip, lemma_u64_roundtrip,
    read_u16_be, read_u64_be, starts_with, u16_be, u64_be,
};
use crate::blob::parse_blob;
use crate::constants::{MAGIC, PUBENC_FLAG_HAS_SIGNATURE, PUBENC_MAGIC};
use crate::error::CryptError;

verus! {

/// The signature embedded in a file: the signer's verifying key and the
/// signature of the plaintext.
pub struct PubencSignature {
    pub verifying_key: [u8; 32],
    pub signature: [u8; 64],
}

/// A parsed public-key encrypted file.
pub struct UnpackedPubenc {
    pub ephemeral_pub: [u8; 32],
    pub nonce: [u8; 24],
    pub aad: Vec<u8>,
    pub ciphertext: Vec<u8>,
    pub signature: Option<PubencSignature>,
}

/// The fields of a public-key encrypted file, as values; the signature
/// block is the pair (verifying key, signature).
pub struct PubencFields {
    pub ephemeral_pub: Seq<u8>,
    pub nonce: Seq<u8>,
    pub aad: Seq<u8>,
    pub ciphertext: Seq<u8>,
    pub signature: Option<(Seq<u8>, Seq<u8>)>,
}

/// The signature block of an optional signature, as values.
pub open spec fn signature_view(s: Option<PubencSignature>) -> Option<(Seq<u8>, Seq<u8>)> {
    match s {
        Some(sig) => Some((sig.verifying_key@, sig.signature@)),
        None => None,
    }
}

impl View for UnpackedPubenc {
    type V = PubencFields;

    open spec fn view(&self) -> PubencFields {
        PubencFields {
            ephemeral_pub: self.ephemeral_pub@,
            nonce: self.nonce@,
            aad: self.aad@,
            ciphertext: self.ciphertext@,
            signature: signature_view(self.signature),
        }
    }
}

/// The first place at which a byte string stops following the layout.
pub enum PubencFault {
    TooSmall,
    BadMagic,
    MissingFlags,
    MissingSignature,
    MissingEphemeral,
    MissingNonce,
    MissingAadLen,
    MissingAad,
    MissingCtLen,
    MissingCt,
}

/// The message that reports a fault.
pub open spec fn pubenc_fault_text(f: PubencFault) -> Seq<char> {
    match f {
        PubencFault::TooSmall => "pubenc blob too small"@,
        PubencFault::BadMagic => "bad magic — not a valid pubenc file"@,
        PubencFault::MissingFlags => "missing flags byte"@,
        PubencFault::MissingSignature => "missing signature data"@,
        PubencFault::MissingEphemeral => "missing ephemeral public key"@,
        PubencFault::MissingNonce => "missing nonce"@,
        PubencFault::MissingAadLen => "missing AAD length"@,
        PubencFault::MissingAad => "missing AAD bytes"@,
        PubencFault::MissingCtLen => "missing ciphertext length"@,
        PubencFault::MissingCt => "missing ciphertext bytes"@,
    }
}

/// The flags byte and signature block that stand for `signature`.
pub open spec fn signature_block(signature: Option<(Seq<u8>, Seq<u8>)>) -> Seq<u8> {
    match signature {
        Some((vk, sig)) => seq![1u8] + vk + sig,
        None => seq![0u8],
    }
}

/// The bytes of a file with the given fields.  The length prefix of the
/// associated data holds its length modulo 65536.
pub open spec fn pubenc_bytes(
    ephemeral_pub: Seq<u8>,
    nonce: Seq<u8>,
    aad: Seq<u8>,
    ciphertext: Seq<u8>,
    signature: Option<(Seq<u8>, Seq<u8>)>,
) -> Seq<u8> {
    PUBENC_MAGIC@ + signature_block(signature) + ephemeral_pub + nonce + u16_be(
        (aad.len() % 0x10000) as u16,
    ) + aad + u64_be((ciphertext.len() % 0x1_0000_0000_0000_0000) as u64) + ciphertext
}

/// The bytes of the file whose fields are `v`.
pub open spec fn pubenc_bytes_of(v: PubencFields) -> Seq<u8> {
    pubenc_bytes(v.ephemeral_pub, v.nonce, v.aad, v.ciphertext, v.signature)
}

/// Whether the flags byte announces a signature block.
pub open spec fn flags_has_signature(flags: u8) -> bool {
    flags & PUBENC_FLAG_HAS_SIGNATURE != 0
}

/// What reading the part of `d` after the signature block, from `i` on,
/// gives.
pub open spec fn parse_pubenc_body(
    d: Seq<u8>,
    i: int,
    signature: Option<(Seq<u8>, Seq<u8>)>,
) -> Result<PubencFields, PubencFault> {
    if d.len() < i + 32 {
        Err(PubencFault::MissingEphemeral)
    } else if d.len() < i + 56 {
        Err(PubencFault::MissingNonce)
    } else if d.len() < i + 58 {
        Err(PubencFault::MissingAadLen)
    } else {
        let aad_end = i + 58 + be16_at(d, i + 56);
        if d.len() < aad_end {
            Err(PubencFault::MissingAad)
        } else if d.len() < aad_end + 8 {
            Err(PubencFault::MissingCtLen)
        } else {
            let ct_end = aad_end + 8 + be64_at(d, aad_end);
            if d.len() < ct_end {
                Err(PubencFault::MissingCt)
            } else {
                Ok(
                    PubencFields {
                        ephemeral_pub: d.subrange(i, i + 32),
                        nonce: d.subrange(i + 32, i + 56),
                        aad: d.subrange(i + 58, aad_end),
                        ciphertext: d.subrange(aad_end + 8, ct_end),
                        signature,
                    },
                )
            }
        }
    }
}

/// What reading `d` as a public-key encrypted file gives: its fields, or
/// the first fault.
pub open spec fn parse_pubenc(d: Seq<u8>) -> Result<PubencFields, PubencFault> {
    if d.len() < 5 {
        Err(PubencFault::TooSmall)
    } else if d.subrange(0, 5) != PUBENC_MAGIC@ {
        Err(PubencFault::BadMagic)
    } else if d.len() < 6 {
        Err(PubencFault::MissingFlags)
    } else if flags_has_signature(d[5]) {
        if d.len() < 102 {
            Err(PubencFault::MissingSignature)
        } else {
            parse_pubenc_body(d, 102, Some((d.subrange(6, 38), d.subrange(38, 102))))
        }
    } else {
        parse_pubenc_body(d, 6, None)
    }
}

/// Serialises a public-key encrypted file into the layout above.
pub fn pack_pubenc_blob(
    ephemeral_pub: &[u8; 32],
    nonce: &[u8; 24],
    aad: &[u8],
    ciphertext: &[u8],
    signature: Option<&PubencSignature>,
) -> (r: Vec<u8>)
    ensures
        r@ == pubenc_bytes(
            ephemeral_pub@,
            nonce@,
            aad@,
            ciphertext@,
            match signature {
                Some(s) => Some((s.verifying_key@, s.signature@)),
                None => None,
            },
        ),
{
    let mut out: Vec<u8> = Vec::new();
    append_bytes(&mut out, PUBENC_MAGIC.as_slice());
    let ghost after_magic = out@;
    match signature {
        Some(sig) => {
            out.push(PUBENC_FLAG_HAS_SIGNATURE);
            append_bytes(&mut out, sig.verifying_key.as_slice());
            append_bytes(&mut out, sig.signature.as_slice());
        },
        None => {
            out.push(0u8);
        },
    }
    let ghost sig_view = match signature {
        Some(s) => Some((s.verifying_key@, s.signature@)),
        None => None,
    };
    assert(out@ == after_magic + signature_block(sig_view));
    append_bytes(&mut out, ephemeral_pub.as_slice());
    append_bytes(&mut out, nonce.as_slice());
    append_u16_be(&mut out, (aad.len() % 0x10000) as u16);
    append_bytes(&mut out, aad);
    let ct_len: u64 = ciphertext.len() as u64;
    append_u64_be(&mut out, ct_len);
    append_bytes(&mut out, ciphertext);
    assert(out@ == pubenc_bytes(ephemeral_pub@, nonce@, aad@, ciphertext@, sig_view));
    out
}

fn format_error(text: &str) -> (r: CryptError)
    ensures
        r matches CryptError::Format(m) && m@ == text@,
{
    CryptError::Format(String::from_str(text))
}

fn unpack_pubenc_body(data: &[u8], start: usize, signature: Option<PubencSignature>) -> (r: Result<
    UnpackedPubenc,
    CryptError,
>)
    requires
        start <= data@.len(),
    ensures
        match parse_pubenc_body(data@, start as int, signature_view(signature)) {
            Ok(v) => r matches Ok(p) && p@ == v,
            Err(f) => r matches Err(CryptError::Format(m)) && m@ == pubenc_fault_text(f),
        },
{
    let len: usize = data.len();
    let mut idx: usize = start;
    if len - idx < 32 {
        return Err(format_error("missing ephemeral public key"));
    }
    let ephemeral_pub: [u8; 32] = copy_array(data, idx);
    idx = idx + 32;
    if len - idx < 24 {
        return Err(format_error("missing nonce"));
    }
    let nonce: [u8; 24] = copy_array(data, idx);
    idx = idx + 24;
    if len - idx < 2 {
        return Err(format_error("missing AAD length"));
    }
    let aad_len: usize = read_u16_be(data, idx) as usize;
    idx = idx + 2;
    if len - idx < aad_len {
        return Err(format_error("missing AAD bytes"));
    }
    let aad = copy_range(data, idx, aad_len);
    idx = idx + aad_len;
    if len - idx < 8 {
        return Err(format_error("missing ciphertext length"));
    }
    let ct_len: u64 = read_u64_be(data, idx);
    idx = idx + 8;
    let rest: u64 = (len - idx) as u64;
    if rest < ct_len {
        return Err(format_error("missing ciphertext bytes"));
    }
    let ciphertext = copy_range(data, idx, ct_len as usize);
    Ok(UnpackedPubenc { ephemeral_pub, nonce, aad, ciphertext, signature })
}

/// Reads a public-key encrypted file from `data`; fails with the first
/// place at which `data` stops following the layout.
pub fn unpack_pubenc_blob(data: &[u8]) -> (r: Result<UnpackedPubenc, CryptError>)
    ensures
        match parse_pubenc(data@) {
            Ok(v) => r matches Ok(p) && p@ == v,
            Err(f) => r matches Err(CryptError::Format(m)) && m@ == pubenc_fault_text(f),
        },
{
    let len: usize = data.len();
    if len < 5 {
        return Err(format_error("pubenc blob too small"));
    }
    if !starts_with(data, PUBENC_MAGIC.as_slice()) {
        return Err(format_error("bad magic — not a valid pubenc file"));
    }
    if len < 6 {
        return Err(format_error("missing flags byte"));
    }
    let flags: u8 = data[5];
    if flags & PUBENC_FLAG_HAS_SIGNATURE != 0 {
        if len < 102 {
            return Err(format_error("missing signature data"));
        }
        let verifying_key: [u8; 32] = copy_array(data, 6);
        let signature: [u8; 64] = copy_array(data, 38);
        unpack_pubenc_body(data, 102, Some(PubencSignature { verifying_key, signature }))
    } else {
        unpack_pubenc_body(data, 6, None)
    }
}

/// Reading back the bytes of a file gives its fields, whatever bytes follow,
/// provided the fields have their fixed sizes and the associated data is at
/// most 65535 bytes.
#[verifier::rlimit(60)]
#[verifier::spinoff_prover]
pub proof fn lemma_unpack_of_pack_pubenc(v: PubencFields, rest: Seq<u8>)
    requires
        v.ephemeral_pub.len() == 32,
        v.nonce.len() == 24,
        v.aad.len() <= 65535,
        v.ciphertext.len() <= u64::MAX,
        v.signature matches Some((vk, sig)) ==> vk.len() == 32 && sig.len() == 64,
    ensures
        parse_pubenc(pubenc_bytes_of(v) + rest) == Ok::<PubencFields, PubencFault>(v),
{
    let d = pubenc_bytes_of(v) + rest;
    let i: int = if v.signature is Some {
        102
    } else {
        6
    };
    let al = v.aad.len() as int;
    let cl = v.ciphertext.len() as int;
    let aad_end = i + 58 + al;
    let ct_end = aad_end + 8 + cl;
    assert(d.len() == ct_end + rest.len());
    assert(d.subrange(0, 5) =~= PUBENC_MAGIC@);
    match v.signature {
        Some((vk, sig)) => {
            assert(d[5] == 1u8);
            assert(flags_has_signature(1u8)) by (bit_vector);
            assert(d.subrange(6, 38) =~= vk);
            assert(d.subrange(38, 102) =~= sig);
        },
        None => {
            assert(d[5] == 0u8);
            assert(!flags_has_signature(0u8)) by (bit_vector);
        },
    }
    assert(d.subrange(i, i + 32) =~= v.ephemeral_pub);
    assert(d.subrange(i + 32, i + 56) =~= v.nonce);
    assert(d.subrange(i + 56, i + 58) =~= u16_be((al % 0x10000) as u16));
    lemma_u16_roundtrip((al % 0x10000) as u16, d, i + 56);
    assert(d.subrange(i + 58, aad_end) =~= v.aad);
    assert(d.subrange(aad_end, aad_end + 8) =~= u64_be((cl % 0x1_0000_0000_0000_0000) as u64));
    lemma_u64_roundtrip((cl % 0x1_0000_0000_0000_0000) as u64, d, aad_end);
    assert(d.subrange(aad_end + 8, ct_end) =~= v.ciphertext);
}

/// A file that reads successfully, and whose flags byte is 0 or 1, begins
/// with the bytes of the fields read.  (Other flag values are read too, with
/// bit 0 deciding, but written back as 0 or 1.)
pub proof fn lemma_pack_of_unpack_pubenc(d: Seq<u8>)
    requires
        parse_pubenc(d) is Ok,
        d[5] == 0 || d[5] == 1,
    ensures
        ({
            let v = parse_pubenc(d)->Ok_0;
            pubenc_bytes_of(v) == d.subrange(0, pubenc_bytes_of(v).len() as int)
        }),
{
    let v = parse_pubenc(d)->Ok_0;
    let f = d[5];
    assert(f == 0 || f == 1 ==> (flags_has_signature(f) <==> f == 1)) by (bit_vector);
    let i: int = if f == 1 {
        102
    } else {
        6
    };
    let aad_end = i + 58 + be16_at(d, i + 56);
    let ct_end = aad_end + 8 + be64_at(d, aad_end);
    lemma_be16_reencode(d, i + 56);
    lemma_be64_reencode(d, aad_end);
    assert(pubenc_bytes_of(v) =~= d.subrange(0, ct_end));
}

/// No byte string reads both as a password-protected blob and as a
/// public-key encrypted file: the two magic markers differ in their second
/// byte.
pub proof fn lemma_formats_disjoint(d: Seq<u8>)
    ensures
        !(parse_blob(d) is Ok && parse_pubenc(d) is Ok),
{
    if parse_blob(d) is Ok && parse_pubenc(d) is Ok {
        assert(d.subrange(0, 6)[1] == MAGIC@[1]);
        assert(d.subrange(0, 5)[1] == PUBENC_MAGIC@[1]);
    }
}

/// The layout that packing writes: the magic marker, the flags byte (1 with
/// a signature block, 0 without), then for a signed file the verifying key
/// at bytes 6..38 and the signature at bytes 38..102, followed by the
/// ephemeral public key.
pub proof fn lemma_pubenc_layout(v: PubencFields)
    requires
        v.ephemeral_pub.len() == 32,
        v.signature matches Some((vk, sig)) ==> vk.len() == 32 && sig.len() == 64,
    ensures
        ({
            let d = pubenc_bytes_of(v);
            &&& d.subrange(0, 5) == PUBENC_MAGIC@
            &&& v.signature matches Some((vk, sig)) ==> {
                &&& d[5] == 1
                &&& d.subrange(6, 38) == vk
                &&& d.subrange(38, 102) == sig
                &&& d.subrange(102, 134) == v.ephemeral_pub
            }
            &&& v.signature is None ==> d[5] == 0 && d.subrange(6, 38) == v.ephemeral_pub
        }),
{
    let d = pubenc_bytes_of(v);
    assert(d.subrange(0, 5) =~= PUBENC_MAGIC@);
    match v.signature {
        Some((vk, sig)) => {
            assert(d.subrange(6, 38) =~= vk);
            assert(d.subrange(38, 102) =~= sig);
            assert(d.subrange(102, 134) =~= v.ephemeral_pub);
        },
        None => {
            assert(d.subrange(6, 38) =~= v.ephemeral_pub);
        },
    }
}

/// Reading a file takes a signature block exactly when bit 0 of byte 5 is
/// set, with the verifying key from bytes 6..38 and the signature from
/// bytes 38..102.
pub proof fn lemma_pubenc_signature_read(d: Seq<u8>)
    requires
        parse_pubenc(d) is Ok,
    ensures
        ({
            let v = parse_pubenc(d)->Ok_0;
            &&& v.signature is Some <==> d[5] & 1u8 == 1u8
            &&& v.signature matches Some((vk, sig)) ==> vk == d.subrange(6, 38) && sig == d.subrange(
                38,
                102,
            )
        }),
{
    let f = d[5];
    assert(f & 1u8 != 0 <==> f & 1u8 == 1u8) by (bit_vector);
}

} // verus!
