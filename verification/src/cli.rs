//! The command line: one command per operation, with the paths and values
//! it takes.

use vstd::prelude::*;

verus! {

/// The parsed command line.
pub struct Cli {
    pub command: Commands,
}

/// The operations of the tool.
pub enum Commands {
    /// Generate a new Ed25519 and X25519 keypair with encrypted private key
    /// backups.
    GenKeypair { name: String, email: String },
    /// Generate a strong password of `length` characters.
    GenPassword { length: usize },
    /// Decrypt a private key backup to its plaintext (DER) form.
    DecryptPrivateKey { enc_path: String, out: Option<String> },
    /// Encrypt a file for an existing X25519 public key.
    EncryptFileWithKey { input: String, public_key: String, output: Option<String> },
    /// Decrypt a file with an existing encrypted X25519 private key.
    DecryptFileWithKey { input: String, private_key: String, output: Option<String> },
    /// Encrypt a file: generate and back up a keypair (or reuse an existing
    /// public key), then sign and encrypt the file.
    Encrypt {
        input: String,
        name: String,
        email: String,
        output: Option<String>,
        key: Option<String>,
    },
    /// Decrypt a file: unlock the private key, decrypt the file, verify its
    /// signature.
    Decrypt { input: String, private_key: String, output: Option<String> },
}

} // verus!
