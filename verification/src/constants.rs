//! Fixed parameters of the container formats and of the key derivation.

use vstd::prelude::*;

verus! {

/// Magic and version marker that opens a password-protected blob ("SGPGv1").
pub const MAGIC: [u8; 6] = [0x53, 0x47, 0x50, 0x47, 0x76, 0x31];

pub const DEFAULT_ARGON_M_COST_KIB: u32 = 65536;

pub const DEFAULT_ARGON_T_COST: u32 = 2;

pub const DEFAULT_ARGON_P_COST: u32 = 1;

pub const SALT_LEN: usize = 16;

pub const XNONCE_LEN: usize = 24;

pub const KEY_LEN: usize = 32;

pub const MIN_PASSWORD_LENGTH: usize = 12;

pub const MAX_PASSWORD_LENGTH: usize = 1024;

/// Magic and version marker that opens a public-key encrypted file ("SCFv1").
pub const PUBENC_MAGIC: [u8; 5] = [0x53, 0x43, 0x46, 0x76, 0x31];

/// Bit of the flags byte that says a signature block follows.
pub const PUBENC_FLAG_HAS_SIGNATURE: u8 = 0x01;

/// Largest Argon2 memory cost accepted from a blob (4 GiB), against
/// memory exhaustion by a crafted file.
pub const MAX_ARGON_M_COST_KIB: u32 = 4194304;

pub const MAX_ARGON_T_COST: u32 = 100;

pub const MAX_ARGON_P_COST: u32 = 16;

/// Longest message that XChaCha20-Poly1305 encrypts or decrypts without
/// running out of keystream: 2^32 - 2 blocks of 64 bytes, the counter
/// starting at block 1 after the block that keys Poly1305.
pub const MAX_AEAD_MESSAGE_LEN: u64 = 274877906816;

} // verus!
