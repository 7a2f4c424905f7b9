//! The password-protected blob: Argon2 parameters, salt, nonce, associated
//! data and ciphertext, each length-prefixed behind a magic marker.
//!
//! Layout: MAGIC (6) | mem_kib (u32 BE) | t_cost (u32 BE) | p_cost (u32 BE)
//! | salt_len (u8) | salt | nonce_len (u8) | nonce | aad_len (u16 BE) | aad
//! | ct_len (u64 BE) | ciphertext.  Bytes after the ciphertext are ignored.

use vstd::prelude::*;
use vstd::string::*;

use crate::bytes::{
    lemma_be16_reencode, lemma_be32_reencode, lemma_be64_reencode, lemma_u16_roundtrip,
    lemma_u32_roundtrip, lemma_u64_roundtrip,
    append_bytes, append_u16_be, append_u32_be, append_u64_be, be16_at, be32_at, be64_at, copy_range,
    read_u16_be, read_u32_be, read_u64_be, starts_with, u16_be, u32_be, u64_be,
};
use crate::constants::MAGIC;
use crate::error::CryptError;

verus! {

/// The fields of a blob, as values.
pub struct BlobFields {
    pub mem_kib: u32,
    pub t_cost: u32,
    pub p_cost: u32,
    pub salt: Seq<u8>,
    pub nonce: Seq<u8>,
    pub aad: Seq<u8>,
    pub ciphertext: Seq<u8>,
}

/// A parsed blob.
pub struct EncryptedBlob {
    pub mem_kib: u32,
    pub t_cost: u32,
    pub p_cost: u32,
    pub salt: Vec<u8>,
    pub nonce: Vec<u8>,
    pub aad: Vec<u8>,
    pub ciphertext: Vec<u8>,
}

impl View for EncryptedBlob {
    type V = BlobFields;

    open spec fn view(&self) -> BlobFields {
        BlobFields {
            mem_kib: self.mem_kib,
            t_cost: self.t_cost,
            p_cost: self.p_cost,
            salt: self.salt@,
            nonce: self.nonce@,
            aad: self.aad@,
            ciphertext: self.ciphertext@,
        }
    }
}

/// The first place at which a byte string stops following the blob layout.
pub enum BlobFault {
    TooSmall,
    BadMagic,
    MissingParams,
    MissingSaltLen,
    MissingSalt,
    MissingNonceLen,
    MissingNonce,
    MissingAadLen,
    MissingAad,
    MissingCtLen,
    MissingCt,
}

/// The message that reports a fault.
pub open spec fn blob_fault_text(f: BlobFault) -> Seq<char> {
    match f {
        BlobFault::TooSmall => "blob too small"@,
        BlobFault::BadMagic => "bad magic - invalid file format"@,
        BlobFault::MissingParams => "blob missing Argon2 params"@,
        BlobFault::MissingSaltLen => "missing salt length"@,
        BlobFault::MissingSalt => "missing salt bytes"@,
        BlobFault::MissingNonceLen => "missing nonce length"@,
        BlobFault::MissingNonce => "missing nonce bytes"@,
        BlobFault::MissingAadLen => "missing AAD length"@,
        BlobFault::MissingAad => "missing AAD bytes"@,
        BlobFault::MissingCtLen => "missing ciphertext length"@,
        BlobFault::MissingCt => "missing ciphertext bytes"@,
    }
}

/// The bytes of a blob with the given fields.  Each length prefix holds the
/// length modulo the range of its field.
pub open spec fn blob_bytes(
    mem_kib: u32,
    t_cost: u32,
    p_cost: u32,
    salt: Seq<u8>,
    nonce: Seq<u8>,
    aad: Seq<u8>,
    ciphertext: Seq<u8>,
) -> Seq<u8> {
    MAGIC@ + u32_be(mem_kib) + u32_be(t_cost) + u32_be(p_cost) + seq![(salt.len() % 256) as u8]
        + salt + seq![(nonce.len() % 256) as u8] + nonce + u16_be((aad.len() % 0x10000) as u16)
        + aad + u64_be((ciphertext.len() % 0x1_0000_0000_0000_0000) as u64) + ciphertext
}

/// The bytes of the blob whose fields are `v`.
pub open spec fn blob_bytes_of(v: BlobFields) -> Seq<u8> {
    blob_bytes(v.mem_kib, v.t_cost, v.p_cost, v.salt, v.nonce, v.aad, v.ciphertext)
}

/// What reading `d` as a blob gives: its fields, or the first fault.
pub open spec fn parse_blob(d: Seq<u8>) -> Result<BlobFields, BlobFault> {
    if d.len() < 6 {
        Err(BlobFault::TooSmall)
    } else if d.subrange(0, 6) != MAGIC@ {
        Err(BlobFault::BadMagic)
    } else if d.len() < 18 {
        Err(BlobFault::MissingParams)
    } else if d.len() < 19 {
        Err(BlobFault::MissingSaltLen)
    } else {
        let salt_end = 19 + d[18];
        if d.len() < salt_end {
            Err(BlobFault::MissingSalt)
        } else if d.len() < salt_end + 1 {
            Err(BlobFault::MissingNonceLen)
        } else {
            let nonce_end = salt_end + 1 + d[salt_end];
            if d.len() < nonce_end {
                Err(BlobFault::MissingNonce)
            } else if d.len() < nonce_end + 2 {
                Err(BlobFault::MissingAadLen)
            } else {
                let aad_end = nonce_end + 2 + be16_at(d, nonce_end);
                if d.len() < aad_end {
                    Err(BlobFault::MissingAad)
                } else if d.len() < aad_end + 8 {
                    Err(BlobFault::MissingCtLen)
                } else {
                    let ct_end = aad_end + 8 + be64_at(d, aad_end);
                    if d.len() < ct_end {
                        Err(BlobFault::MissingCt)
                    } else {
                        Ok(
                            BlobFields {
                                mem_kib: be32_at(d, 6),
                                t_cost: be32_at(d, 10),
                                p_cost: be32_at(d, 14),
                                salt: d.subrange(19, salt_end),
                                nonce: d.subrange(salt_end + 1, nonce_end),
                                aad: d.subrange(nonce_end + 2, aad_end),
                                ciphertext: d.subrange(aad_end + 8, ct_end),
                            },
                        )
                    }
                }
            }
        }
    }
}

/// Serialises the blob fields into the layout above.
pub fn pack_encrypted_blob(
    argon_mem_kib: u32,
    argon_t: u32,
    argon_p: u32,
    salt: &[u8],
    nonce: &[u8],
    aad: &[u8],
    ciphertext: &[u8],
) -> (r: Vec<u8>)
    ensures
        r@ == blob_bytes(argon_mem_kib, argon_t, argon_p, salt@, nonce@, aad@, ciphertext@),
{
    let mut out: Vec<u8> = Vec::new();
    append_bytes(&mut out, MAGIC.as_slice());
    append_u32_be(&mut out, argon_mem_kib);
    append_u32_be(&mut out, argon_t);
    append_u32_be(&mut out, argon_p);
    out.push((salt.len() % 256) as u8);
    append_bytes(&mut out, salt);
    out.push((nonce.len() % 256) as u8);
    append_bytes(&mut out, nonce);
    append_u16_be(&mut out, (aad.len() % 0x10000) as u16);
    append_bytes(&mut out, aad);
    let ct_len: u64 = ciphertext.len() as u64;
    append_u64_be(&mut out, ct_len);
    append_bytes(&mut out, ciphertext);
    assert(out@ == blob_bytes(argon_mem_kib, argon_t, argon_p, salt@, nonce@, aad@, ciphertext@));
    out
}

fn format_error(text: &str) -> (r: CryptError)
    ensures
        r matches CryptError::Format(m) && m@ == text@,
{
    CryptError::Format(String::from_str(text))
}

/// Reads a blob from `data`; fails with the first place at which `data`
/// stops following the layout.
pub fn unpack_encrypted_blob(data: &[u8]) -> (r: Result<EncryptedBlob, CryptError>)
    ensures
        match parse_blob(data@) {
            Ok(v) => r matches Ok(b) && b@ == v,
            Err(f) => r matches Err(CryptError::Format(m)) && m@ == blob_fault_text(f),
        },
{
    let len: usize = data.len();
    if len < 6 {
        return Err(format_error("blob too small"));
    }
    if !starts_with(data, MAGIC.as_slice()) {
        return Err(format_error("bad magic - invalid file format"));
    }
    if len < 18 {
        return Err(format_error("blob missing Argon2 params"));
    }
    let mem_kib = read_u32_be(data, 6);
    let t_cost = read_u32_be(data, 10);
    let p_cost = read_u32_be(data, 14);
    if len < 19 {
        return Err(format_error("missing salt length"));
    }
    let salt_len: usize = data[18] as usize;
    let mut idx: usize = 19;
    if len - idx < salt_len {
        return Err(format_error("missing salt bytes"));
    }
    let salt = copy_range(data, idx, salt_len);
    idx = idx + salt_len;
    if len - idx < 1 {
        return Err(format_error("missing nonce length"));
    }
    let nonce_len: usize = data[idx] as usize;
    idx = idx + 1;
    if len - idx < nonce_len {
        return Err(format_error("missing nonce bytes"));
    }
    let nonce = copy_range(data, idx, nonce_len);
    idx = idx + nonce_len;
    if len - idx < 2 {
        return Err(format_error("missing AAD length"));
    }
    let aad_len: usize = read_u16_be(data, idx) as usize;
    idx = idx + 2;
    if len - idx < aad_len {
        return Err(format_error("missing AAD bytes"));
    }
    let aad = copy_range(data, idx, aad_len);
    idx = idx + aad_len;
    if len - idx < 8 {
        return Err(format_error("missing ciphertext length"));
    }
    let ct_len: u64 = read_u64_be(data, idx);
    idx = idx + 8;
    let rest: u64 = (len - idx) as u64;
    if rest < ct_len {
        return Err(format_error("missing ciphertext bytes"));
    }
    let ciphertext = copy_range(data, idx, ct_len as usize);
    Ok(EncryptedBlob { mem_kib, t_cost, p_cost, salt, nonce, aad, ciphertext })
}

/// Reading back the bytes of a blob gives its fields, whatever bytes follow,
/// provided each length fits its prefix (salt and nonce at most 255 bytes,
/// associated data at most 65535).
#[verifier::rlimit(60)]
#[verifier::spinoff_prover]
pub proof fn lemma_unpack_of_pack(v: BlobFields, rest: Seq<u8>)
    requires
        v.salt.len() <= 255,
        v.nonce.len() <= 255,
        v.aad.len() <= 65535,
        v.ciphertext.len() <= u64::MAX,
    ensures
        parse_blob(blob_bytes_of(v) + rest) == Ok::<BlobFields, BlobFault>(v),
{
    let d = blob_bytes_of(v) + rest;
    let sl = v.salt.len() as int;
    let nl = v.nonce.len() as int;
    let al = v.aad.len() as int;
    let cl = v.ciphertext.len() as int;
    let salt_end = 19 + sl;
    let nonce_end = salt_end + 1 + nl;
    let aad_end = nonce_end + 2 + al;
    let ct_end = aad_end + 8 + cl;
    assert(d.len() == ct_end + rest.len());
    assert(d.subrange(0, 6) =~= MAGIC@);
    assert(d.subrange(6, 10) =~= u32_be(v.mem_kib));
    assert(d.subrange(10, 14) =~= u32_be(v.t_cost));
    assert(d.subrange(14, 18) =~= u32_be(v.p_cost));
    lemma_u32_roundtrip(v.mem_kib, d, 6);
    lemma_u32_roundtrip(v.t_cost, d, 10);
    lemma_u32_roundtrip(v.p_cost, d, 14);
    assert(d[18] == (sl % 256) as u8);
    assert(d.subrange(19, salt_end) =~= v.salt);
    assert(d[salt_end] == (nl % 256) as u8);
    assert(d.subrange(salt_end + 1, nonce_end) =~= v.nonce);
    assert(d.subrange(nonce_end, nonce_end + 2) =~= u16_be((al % 0x10000) as u16));
    lemma_u16_roundtrip((al % 0x10000) as u16, d, nonce_end);
    assert(d.subrange(nonce_end + 2, aad_end) =~= v.aad);
    assert(d.subrange(aad_end, aad_end + 8) =~= u64_be((cl % 0x1_0000_0000_0000_0000) as u64));
    lemma_u64_roundtrip((cl % 0x1_0000_0000_0000_0000) as u64, d, aad_end);
    assert(d.subrange(aad_end + 8, ct_end) =~= v.ciphertext);
}

/// A blob that reads successfully begins with the bytes of the fields read:
/// a blob has one encoding, and only trailing bytes are ignored.
pub proof fn lemma_pack_of_unpack(d: Seq<u8>)
    requires
        parse_blob(d) is Ok,
    ensures
        ({
            let v = parse_blob(d)->Ok_0;
            blob_bytes_of(v) == d.subrange(0, blob_bytes_of(v).len() as int)
        }),
{
    let v = parse_blob(d)->Ok_0;
    let salt_end = 19 + d[18];
    let nonce_end = salt_end + 1 + d[salt_end];
    let aad_end = nonce_end + 2 + be16_at(d, nonce_end);
    let ct_end = aad_end + 8 + be64_at(d, aad_end);
    lemma_be32_reencode(d, 6);
    lemma_be32_reencode(d, 10);
    lemma_be32_reencode(d, 14);
    lemma_be16_reencode(d, nonce_end);
    lemma_be64_reencode(d, aad_end);
    assert(blob_bytes_of(v) =~= d.subrange(0, ct_end));
}

/// The header that packing writes: the magic marker, then the memory, time
/// and parallelism costs as big-endian `u32`s at bytes 6, 10 and 14, then
/// the salt's length at byte 18 and the salt from byte 19.
pub proof fn lemma_blob_header(v: BlobFields)
    requires
        v.salt.len() <= 255,
    ensures
        ({
            let d = blob_bytes_of(v);
            &&& d.len() >= 19 + v.salt.len()
            &&& d.subrange(0, 6) == MAGIC@
            &&& be32_at(d, 6) == v.mem_kib
            &&& be32_at(d, 10) == v.t_cost
            &&& be32_at(d, 14) == v.p_cost
            &&& d[18] == v.salt.len()
            &&& d.subrange(19, 19 + v.salt.len() as int) == v.salt
        }),
{
    let d = blob_bytes_of(v);
    assert(d.subrange(0, 6) =~= MAGIC@);
    assert(d.subrange(6, 10) =~= u32_be(v.mem_kib));
    assert(d.subrange(10, 14) =~= u32_be(v.t_cost));
    assert(d.subrange(14, 18) =~= u32_be(v.p_cost));
    lemma_u32_roundtrip(v.mem_kib, d, 6);
    lemma_u32_roundtrip(v.t_cost, d, 10);
    lemma_u32_roundtrip(v.p_cost, d, 14);
    assert(d.subrange(19, 19 + v.salt.len() as int) =~= v.salt);
}

/// Reading a blob takes the memory, time and parallelism costs from the
/// big-endian `u32`s at bytes 6, 10 and 14, and the salt from byte 19 on,
/// as many bytes as byte 18 says.
pub proof fn lemma_blob_header_read(d: Seq<u8>)
    requires
        parse_blob(d) is Ok,
    ensures
        ({
            let v = parse_blob(d)->Ok_0;
            &&& d.subrange(0, 6) == MAGIC@
            &&& v.mem_kib == be32_at(d, 6)
            &&& v.t_cost == be32_at(d, 10)
            &&& v.p_cost == be32_at(d, 14)
            &&& v.salt == d.subrange(19, 19 + d[18])
        }),
{
}

} // verus!
