//! Verified core of a file-encryption tool: the two on-disk container
//! formats, the key-derivation and AEAD steps built on them, and the
//! sealing and opening of files for a recipient's X25519 key.

pub mod blob;
pub mod bytes;
pub mod cli;
pub mod constants;
pub mod crypto;
pub mod error;
pub mod file_ops;
pub mod keystore;
pub mod password;
pub mod primitives;
pub mod pubenc;
pub mod text;
pub mod utils;
pub mod workflow;
