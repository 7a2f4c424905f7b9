//! Field escaping for associated data, key fingerprints, and the length rule
//! for backup passwords.

use vstd::prelude::*;
use vstd::string::*;

use crate::constants::{MAX_PASSWORD_LENGTH, MIN_PASSWORD_LENGTH};
use crate::primitives::{sha256, sha256_digest};
use crate::text::{decimal, decimal_string, hex, hex_string, push_char};

verus! {

/// Whether `c` separates or ends fields of associated data.
pub open spec fn is_aad_special(c: char) -> bool {
    c == '|' || c == '\n' || c == '\r' || c == '\0'
}

/// `s` with every separator or terminator character replaced by `_`.
pub open spec fn escape_aad(s: Seq<char>) -> Seq<char> {
    s.map_values(|c: char| if is_aad_special(c) { '_' } else { c })
}

/// Replaces `|`, newline, carriage return and NUL in a field of associated
/// data with `_`, so that the field cannot forge a separator.
pub fn escape_aad_field(field: &str) -> (r: String)
    ensures
        r@ == escape_aad(field@),
{
    let mut r = String::new();
    for c in it: field.chars()
        invariant
            it.seq() == field@,
            r@ == escape_aad(field@.take(it.index() as int)),
    {
        let e = if c == '|' || c == '\n' || c == '\r' || c == '\0' {
            '_'
        } else {
            c
        };
        push_char(&mut r, e);
        assert(escape_aad(field@.take(it.index() as int + 1)) =~= escape_aad(field@.take(it.index() as int)).push(e));
    }
    assert(field@.take(field@.len() as int) =~= field@);
    r
}

/// An escaped field holds no separator or terminator character, and has as
/// many characters as the field.
pub proof fn lemma_escaped_field_has_no_separator(s: Seq<char>)
    ensures
        escape_aad(s).len() == s.len(),
        forall|i: int| 0 <= i < escape_aad(s).len() ==> !is_aad_special(#[trigger] escape_aad(s)[i]),
{
}

/// The fingerprint of a public key: its SHA-256 digest in upper-case
/// hexadecimal (64 characters).
pub fn compute_fingerprint(pubkey_bytes: &[u8]) -> (r: String)
    ensures
        r@ == hex(sha256(pubkey_bytes@), true),
        r@.len() == 64,
{
    let digest = sha256_digest(pubkey_bytes);
    hex_string(digest.as_slice(), true)
}

/// The complaint about a backup password whose length in bytes is outside
/// `[MIN_PASSWORD_LENGTH, MAX_PASSWORD_LENGTH]`, or `None` for one inside.
pub fn password_length_error(password: &str) -> (r: Option<String>)
    ensures
        password.spec_bytes().len() < MIN_PASSWORD_LENGTH ==> (r matches Some(m) && m@
            == "Password too short; must be >= "@ + decimal(MIN_PASSWORD_LENGTH as nat) + " chars"@),
        password.spec_bytes().len() > MAX_PASSWORD_LENGTH ==> (r matches Some(m) && m@
            == "Password too long; must be <= "@ + decimal(MAX_PASSWORD_LENGTH as nat) + " chars"@),
        MIN_PASSWORD_LENGTH <= password.spec_bytes().len() <= MAX_PASSWORD_LENGTH ==> r is None,
{
    let len = password.as_bytes().len();
    if len < MIN_PASSWORD_LENGTH {
        let m = String::from_str("Password too short; must be >= ").concat(
            decimal_string(MIN_PASSWORD_LENGTH as u32).as_str(),
        ).concat(" chars");
        Some(m)
    } else if len > MAX_PASSWORD_LENGTH {
        let m = String::from_str("Password too long; must be <= ").concat(
            decimal_string(MAX_PASSWORD_LENGTH as u32).as_str(),
        ).concat(" chars");
        Some(m)
    } else {
        None
    }
}

} // verus!
