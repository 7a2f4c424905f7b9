# yacrypt

A file-encryption tool whose core is verified with Verus.

- Key backups: an Ed25519 signing key and an X25519 encryption key, each
  encrypted under a password (Argon2id, XChaCha20-Poly1305) in a
  length-prefixed blob.
- Files: sealed for a recipient's X25519 public key (ephemeral X25519,
  HKDF-SHA256, XChaCha20-Poly1305), optionally signed with Ed25519, in the
  `SCFv1` container; the signature is verified before any plaintext is
  given out.

## Layout

- `src/` — the verified library. `blob.rs` and `pubenc.rs` are the two
  container formats with their round-trip laws; `crypto.rs` key derivation
  and AEAD; `file_ops.rs` sealing; `keystore.rs` key generation and backups;
  `workflow.rs` the encrypt and decrypt workflows with the end-to-end law;
  `primitives.rs` the trusted wrappers of the outside cryptographic crates.
- `app/` — the command line (clap), prompts (dialoguer), files and memory
  locking around the library.
- `tests/` — tests of the library with the real outside crates.
