//! The library's error type.

use vstd::prelude::*;
use vstd::string::*;

verus! {

#[verifier::external_type_specification]
#[verifier::external_body]
pub struct ExIoError(std::io::Error);

/// Error of every fallible operation of the library.
#[derive(Debug)]
pub enum CryptError {
    /// A read or write failed.
    Io(std::io::Error),
    /// An encryption or decryption step failed.
    Crypto(String),
    /// A container did not follow its format.
    Format(String),
    /// A key could not be derived or decoded.
    Key(String),
}

/// The variant of an error, without its payload.
pub enum ErrorKind {
    Io,
    Crypto,
    Format,
    Key,
}

impl View for CryptError {
    type V = (ErrorKind, Seq<char>);

    /// The variant and message of an error; an I/O error carries no message
    /// here.
    open spec fn view(&self) -> (ErrorKind, Seq<char>) {
        match self {
            CryptError::Io(_) => (ErrorKind::Io, Seq::empty()),
            CryptError::Crypto(m) => (ErrorKind::Crypto, m@),
            CryptError::Format(m) => (ErrorKind::Format, m@),
            CryptError::Key(m) => (ErrorKind::Key, m@),
        }
    }
}

/// Whether `r` is the outcome `o`: the same value, or an error of the same
/// variant and message.
pub open spec fn outcome_is<T: View>(r: Result<T, CryptError>, o: Result<T::V, (ErrorKind, Seq<char>)>) -> bool {
    match o {
        Ok(v) => r matches Ok(x) && x@ == v,
        Err(e) => r matches Err(x) && x@ == e,
    }
}

/// The text of an I/O error, as its `Display` writes it.
#[verifier::external_body]
fn io_error_text(e: &std::io::Error) -> String {
    format!("{}", e)
}

impl CryptError {
    /// The human-readable description of the error.
    pub fn message(&self) -> (r: String)
        ensures
            match self {
                CryptError::Io(_) => r@.subrange(0, 10) == "IO error: "@,
                CryptError::Crypto(s) => r@ == "Crypto error: "@ + s@,
                CryptError::Format(s) => r@ == "Format error: "@ + s@,
                CryptError::Key(s) => r@ == "Key error: "@ + s@,
            },
    {
        match self {
            CryptError::Io(e) => {
                let t = io_error_text(e);
                let r = String::from_str("IO error: ").concat(t.as_str());
                proof {
                    reveal_strlit("IO error: ");
                    assert(r@.subrange(0, 10) == "IO error: "@);
                }
                r
            },
            CryptError::Crypto(s) => String::from_str("Crypto error: ").concat(s.as_str()),
            CryptError::Format(s) => String::from_str("Format error: ").concat(s.as_str()),
            CryptError::Key(s) => String::from_str("Key error: ").concat(s.as_str()),
        }
    }
}

impl CryptError {
    /// The underlying I/O error of an I/O error.
    pub fn source(&self) -> (r: Option<&std::io::Error>)
        ensures
            match self {
                CryptError::Io(e) => r == Some(e),
                _ => r is None,
            },
    {
        match self {
            CryptError::Io(e) => Some(e),
            _ => None,
        }
    }
}

impl From<String> for CryptError {
    fn from(s: String) -> (r: Self) {
        CryptError::Crypto(s)
    }
}

impl vstd::std_specs::convert::FromSpecImpl<String> for CryptError {
    open spec fn obeys_from_spec() -> bool {
        true
    }

    open spec fn from_spec(s: String) -> Self {
        CryptError::Crypto(s)
    }
}

impl From<&str> for CryptError {
    /// A plain message is a cryptographic error carrying a copy of it.
    fn from(s: &str) -> (r: Self)
        ensures
            r@ == (ErrorKind::Crypto, s@),
    {
        CryptError::Crypto(String::from_str(s))
    }
}

impl vstd::std_specs::convert::FromSpecImpl<&str> for CryptError {
    /// Two `String`s with the same characters are not known to be equal in
    /// specifications, so the conversion is stated by the `ensures` of
    /// `from` above, over the error's view, rather than by `from_spec`.
    open spec fn obeys_from_spec() -> bool {
        false
    }

    open spec fn from_spec(s: &str) -> Self {
        CryptError::Crypto(choose|t: String| t@ == s@)
    }
}

impl From<std::io::Error> for CryptError {
    fn from(e: std::io::Error) -> (r: Self) {
        CryptError::Io(e)
    }
}

impl vstd::std_specs::convert::FromSpecImpl<std::io::Error> for CryptError {
    open spec fn obeys_from_spec() -> bool {
        true
    }

    open spec fn from_spec(e: std::io::Error) -> Self {
        CryptError::Io(e)
    }
}

} // verus!
