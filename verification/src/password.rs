//! Strong password generation by rejection sampling over random bytes.

use vstd::prelude::*;
use vstd::string::*;

use crate::bytes::append_bytes;
use crate::error::CryptError;
use crate::primitives::{random_bytes, wipe_vec};
use crate::text::push_char;

verus! {

/// Characters a generated password is drawn from: letters, digits and
/// symbols, without the easily confused `I`, `O`, `l`, `0` and `1`
/// ("ABCDEFGHJKLMNPQRSTUVWXYZabcdefghijkmnopqrstuvwxyz23456789!@#$%^&*-_=+").
pub const PASSWORD_CHARSET: [u8; 69] = [
    65, 66, 67, 68, 69, 70, 71, 72, 74, 75, 76, 77, 78, 80, 81, 82, 83, 84, 85, 86, 87, 88, 89, 90,
    97, 98, 99, 100, 101, 102, 103, 104, 105, 106, 107, 109, 110, 111, 112, 113, 114, 115, 116,
    117, 118, 119, 120, 121, 122, 50, 51, 52, 53, 54, 55, 56, 57, 33, 64, 35, 36, 37, 94, 38, 42,
    45, 95, 61, 43,
];

/// Longest password that can be requested.
pub const MAX_GENERATED_PASSWORD_LENGTH: usize = 4096;

/// Random bytes at or above this bound are rejected, so that every
/// character is equally likely: 3 * 69, the largest multiple of the
/// charset's size not above 256.
pub const ACCEPT_BOUND: u8 = 207;

/// The password character a random byte stands for, if it is accepted.
pub open spec fn char_of_byte(b: u8) -> Option<char> {
    if b < ACCEPT_BOUND {
        Some(PASSWORD_CHARSET@[(b % 69) as int] as char)
    } else {
        None
    }
}

/// The characters that a stream of random bytes yields: each accepted byte,
/// in order, maps to a charset character; rejected bytes are skipped.
pub open spec fn chars_of_bytes(bytes: Seq<u8>) -> Seq<char>
    decreases bytes.len(),
{
    if bytes.len() == 0 {
        Seq::empty()
    } else {
        match char_of_byte(bytes.last()) {
            Some(c) => chars_of_bytes(bytes.drop_last()).push(c),
            None => chars_of_bytes(bytes.drop_last()),
        }
    }
}

/// Whether `c` is one of the charset's characters.
pub open spec fn in_charset(c: char) -> bool {
    exists|j: int| 0 <= j < 69 && c == PASSWORD_CHARSET@[j] as char
}

/// The message for a length outside `[1, MAX_GENERATED_PASSWORD_LENGTH]`.
pub open spec fn password_length_text() -> Seq<char> {
    "password length must be between 1 and 4096"@
}

/// The message for a random source that gave too few usable bytes in
/// 2^64 - 1 batches.
pub open spec fn random_exhausted_text() -> Seq<char> {
    "random source yielded too few usable bytes"@
}

/// Every character that a stream of random bytes yields is in the charset.
pub proof fn lemma_chars_in_charset(bytes: Seq<u8>)
    ensures
        forall|i: int| 0 <= i < chars_of_bytes(bytes).len() ==> in_charset(#[trigger] chars_of_bytes(bytes)[i]),
    decreases bytes.len(),
{
    if bytes.len() > 0 {
        let prev = bytes.drop_last();
        lemma_chars_in_charset(prev);
        let b = bytes.last();
        if b < ACCEPT_BOUND {
            let j = (b % 69) as int;
            assert(in_charset(PASSWORD_CHARSET@[j] as char));
            let c = PASSWORD_CHARSET@[j] as char;
            assert forall|i: int| 0 <= i < chars_of_bytes(bytes).len() implies in_charset(
                #[trigger] chars_of_bytes(bytes)[i],
            ) by {
                if i < chars_of_bytes(prev).len() {
                    assert(chars_of_bytes(bytes)[i] == chars_of_bytes(prev)[i]);
                } else {
                    assert(chars_of_bytes(bytes)[i] == c);
                }
            }
        }
    }
}

/// The password character that a random byte stands for, or `None` for a
/// byte that rejection sampling discards.
pub fn password_char(b: u8) -> (r: Option<char>)
    ensures
        r == char_of_byte(b),
{
    if b < ACCEPT_BOUND {
        Some(PASSWORD_CHARSET[(b % 69) as usize] as char)
    } else {
        None
    }
}

/// The characters that the first `i` bytes of a stream yield are the first
/// characters that the whole stream yields.
pub proof fn lemma_chars_prefix(bytes: Seq<u8>, i: int)
    requires
        0 <= i <= bytes.len(),
    ensures
        chars_of_bytes(bytes.take(i)).len() <= chars_of_bytes(bytes).len(),
        chars_of_bytes(bytes).take(chars_of_bytes(bytes.take(i)).len() as int) == chars_of_bytes(
            bytes.take(i),
        ),
    decreases bytes.len(),
{
    if i == bytes.len() {
        assert(bytes.take(i) =~= bytes);
        assert(chars_of_bytes(bytes).take(chars_of_bytes(bytes).len() as int) =~= chars_of_bytes(bytes));
    } else {
        let prev = bytes.drop_last();
        lemma_chars_prefix(prev, i);
        assert(prev.take(i) =~= bytes.take(i));
        let p = chars_of_bytes(bytes.take(i));
        match char_of_byte(bytes.last()) {
            Some(c) => {
                assert(chars_of_bytes(bytes) == chars_of_bytes(prev).push(c));
                assert(chars_of_bytes(bytes).take(p.len() as int) =~= chars_of_bytes(prev).take(
                    p.len() as int,
                ));
            },
            None => {
                assert(chars_of_bytes(bytes) == chars_of_bytes(prev));
            },
        }
    }
}

/// The password of `length` characters that a stream of random bytes gives
/// by rejection sampling: the characters of its accepted bytes, in order,
/// cut to `length`; `None` where the stream has too few accepted bytes.
pub fn password_from_bytes(bytes: &[u8], length: usize) -> (r: Option<String>)
    requires
        1 <= length <= MAX_GENERATED_PASSWORD_LENGTH,
    ensures
        r is Some <==> chars_of_bytes(bytes@).len() >= length,
        r matches Some(s) ==> s@ == chars_of_bytes(bytes@).take(length as int),
{
    let mut password = String::new();
    let mut count: usize = 0;
    let mut i: usize = 0;
    while i < bytes.len() && count < length
        invariant
            0 <= i <= bytes@.len(),
            count <= length,
            password@ == chars_of_bytes(bytes@.take(i as int)),
            password@.len() == count,
        decreases bytes@.len() - i,
    {
        let b = bytes[i];
        match password_char(b) {
            Some(c) => {
                push_char(&mut password, c);
                count = count + 1;
            },
            None => {},
        }
        i = i + 1;
        assert(bytes@.take(i as int).drop_last() =~= bytes@.take(i - 1));
    }
    proof {
        lemma_chars_prefix(bytes@, i as int);
        if i == bytes.len() {
            assert(bytes@.take(i as int) =~= bytes@);
        }
    }
    if count < length {
        None
    } else {
        Some(password)
    }
}

/// Generates a password of `length` characters, each drawn uniformly from
/// `PASSWORD_CHARSET` by rejection sampling of random bytes: batches of
/// `length` bytes are drawn from the operating system's random source until
/// `password_from_bytes` gives a password from all the bytes drawn.
pub fn cmd_generate_strong_password(length: usize) -> (r: Result<String, CryptError>)
    ensures
        (length == 0 || length > MAX_GENERATED_PASSWORD_LENGTH) ==> (r matches Err(
            CryptError::Crypto(m),
        ) && m@ == password_length_text()),
        r matches Ok(s) ==> s@.len() == length && 1 <= length <= MAX_GENERATED_PASSWORD_LENGTH,
        r matches Ok(s) ==> exists|bytes: Seq<u8>|
            chars_of_bytes(bytes).len() >= length && s@ == #[trigger] chars_of_bytes(bytes).take(
                length as int,
            ),
        r matches Ok(s) ==> forall|i: int| 0 <= i < s@.len() ==> in_charset(#[trigger] s@[i]),
        r matches Err(e) ==> (length == 0 || length > MAX_GENERATED_PASSWORD_LENGTH || (e matches CryptError::Crypto(m) && m@ == random_exhausted_text())),
{
    if length == 0 || length > MAX_GENERATED_PASSWORD_LENGTH {
        return Err(CryptError::Crypto(String::from_str("password length must be between 1 and 4096")));
    }
    let mut drawn: Vec<u8> = Vec::new();
    let mut batches: u64 = 0;
    loop
        invariant
            1 <= length <= MAX_GENERATED_PASSWORD_LENGTH,
        decreases u64::MAX - batches,
    {
        if batches == u64::MAX {
            wipe_vec(&mut drawn);
            return Err(CryptError::Crypto(String::from_str("random source yielded too few usable bytes")));
        }
        batches = batches + 1;
        let batch = random_bytes(length);
        append_bytes(&mut drawn, batch.as_slice());
        match password_from_bytes(drawn.as_slice(), length) {
            Some(password) => {
                proof {
                    lemma_chars_in_charset(drawn@);
                    assert forall|i: int| 0 <= i < password@.len() implies in_charset(
                        #[trigger] password@[i],
                    ) by {
                        assert(password@[i] == chars_of_bytes(drawn@)[i]);
                    }
                }
                let ghost d = drawn@;
                wipe_vec(&mut drawn);
                proof {
                    assert(chars_of_bytes(d).len() >= length && password@ == chars_of_bytes(d).take(
                        length as int,
                    ));
                }
                return Ok(password);
            },
            None => {},
        }
    }
}

} // verus!
