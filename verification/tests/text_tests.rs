use yacrypt::crypto::derive_key;
use yacrypt::error::CryptError;
use yacrypt::file_ops::default_decrypted_name;
use yacrypt::password::{
    cmd_generate_strong_password, password_char, password_from_bytes, PASSWORD_CHARSET,
};
use yacrypt::text::{decimal_string, hex_string, trim_white_space};
use yacrypt::utils::password_length_error;

#[test]
fn decimal_rendering() {
    assert_eq!(decimal_string(0), "0");
    assert_eq!(decimal_string(7), "7");
    assert_eq!(decimal_string(4194304), "4194304");
    assert_eq!(decimal_string(u32::MAX), "4294967295");
}

#[test]
fn hex_rendering() {
    assert_eq!(hex_string(&[0x00, 0xAB, 0x9f], false), "00ab9f");
    assert_eq!(hex_string(&[0x00, 0xAB, 0x9f], true), "00AB9F");
    assert_eq!(hex_string(&[], true), "");
}

#[test]
fn trim_removes_unicode_white_space() {
    assert_eq!(trim_white_space("  abc \n"), "abc");
    assert_eq!(trim_white_space("\u{3000}\tx y\u{85}"), "x y");
    assert_eq!(trim_white_space(" \r\n "), "");
    assert_eq!(trim_white_space("a"), "a");
}

#[test]
fn password_length_messages() {
    assert_eq!(
        password_length_error("short").unwrap(),
        "Password too short; must be >= 12 chars"
    );
    assert_eq!(
        password_length_error(&"x".repeat(1025)).unwrap(),
        "Password too long; must be <= 1024 chars"
    );
    assert!(password_length_error("exactly-12ch").is_none());
    assert!(password_length_error(&"x".repeat(1024)).is_none());
}

#[test]
fn generated_password_has_requested_length_and_charset() {
    let p = cmd_generate_strong_password(32).unwrap();
    assert_eq!(p.chars().count(), 32);
    assert!(p.bytes().all(|b| PASSWORD_CHARSET.contains(&b)));
    let long = cmd_generate_strong_password(4096).unwrap();
    assert_eq!(long.len(), 4096);
    match cmd_generate_strong_password(0) {
        Err(CryptError::Crypto(m)) => assert_eq!(m, "password length must be between 1 and 4096"),
        _ => panic!("expected a length error"),
    }
}

#[test]
fn derive_key_messages() {
    let salt = [0u8; 16];
    let msg = |r: Result<[u8; 32], CryptError>| match r {
        Err(CryptError::Key(m)) => m,
        _ => panic!("expected a key error"),
    };
    assert_eq!(
        msg(derive_key("p", &salt, 4194305, 1, 1)),
        "Argon2 mem_kib 4194305 exceeds maximum allowed 4194304"
    );
    assert_eq!(msg(derive_key("p", &salt, 256, 101, 1)), "Argon2 t_cost 101 out of valid range [1, 100]");
    assert_eq!(msg(derive_key("p", &salt, 256, 1, 0)), "Argon2 p_cost 0 out of valid range [1, 16]");
    assert_eq!(
        msg(derive_key("p", &salt, 8, 1, 2)),
        "Invalid Argon2 params: memory cost is too small"
    );
    assert_eq!(
        msg(derive_key("p", &[0u8; 4], 256, 1, 1)),
        "Argon2 key derivation failed: salt is too short"
    );
}

#[test]
fn error_messages() {
    assert_eq!(CryptError::Crypto("c".to_string()).message(), "Crypto error: c");
    assert_eq!(CryptError::Format("f".to_string()).message(), "Format error: f");
    assert_eq!(CryptError::Key("k".to_string()).message(), "Key error: k");
    let io = CryptError::from(std::io::Error::new(std::io::ErrorKind::Other, "disk"));
    assert_eq!(io.message(), "IO error: disk");
    assert!(matches!(CryptError::from("s".to_string()), CryptError::Crypto(_)));
}

#[test]
fn password_char_rejection_sampling() {
    assert_eq!(password_char(0), Some('A'));
    assert_eq!(password_char(68), Some('+'));
    assert_eq!(password_char(69), Some('A'));
    assert_eq!(password_char(206), Some('+'));
    assert_eq!(password_char(207), None);
    assert_eq!(password_char(255), None);
}

#[test]
fn error_source_is_the_io_error() {
    let io = CryptError::Io(std::io::Error::new(std::io::ErrorKind::NotFound, "gone"));
    assert_eq!(io.source().unwrap().kind(), std::io::ErrorKind::NotFound);
    assert!(CryptError::Key("k".to_string()).source().is_none());
}

#[test]
fn error_from_plain_message() {
    match CryptError::from("plain") {
        CryptError::Crypto(m) => assert_eq!(m, "plain"),
        _ => panic!("expected a crypto error"),
    }
}

#[test]
fn default_encrypted_path_appends_extension() {
    assert_eq!(yacrypt::file_ops::default_encrypted_path("secret.txt"), "secret.txt.pubenc");
    assert_eq!(yacrypt::file_ops::default_encrypted_path("dir/a"), "dir/a.pubenc");
}

fn path_rule(name: &str) -> String {
    let mut path = std::path::PathBuf::from(name);
    if path.extension().and_then(|s| s.to_str()) == Some("pubenc") {
        path.set_extension("");
    } else {
        path.set_extension("decrypted");
    }
    path.to_str().unwrap().to_string()
}

#[test]
fn default_decrypted_name_follows_path_extension_rules() {
    for name in [
        "secret.txt.pubenc",
        "x.pubenc",
        ".pubenc",
        "doc.bin",
        "noext",
        ".hidden",
        "a.",
        "a.b.c",
        "..a",
        "report.PUBENC",
    ] {
        assert_eq!(default_decrypted_name(name), path_rule(name), "name {:?}", name);
    }
    assert_eq!(default_decrypted_name("secret.txt.pubenc"), "secret.txt");
}

#[test]
fn password_from_bytes_rejection_sampling() {
    assert_eq!(password_from_bytes(&[0, 207, 68, 255, 69], 3).unwrap(), "A+A");
    assert_eq!(password_from_bytes(&[0, 207, 68], 2).unwrap(), "A+");
    assert!(password_from_bytes(&[0, 207, 68], 3).is_none());
    assert!(password_from_bytes(&[255; 10], 1).is_none());
    assert_eq!(password_from_bytes(&[1, 2, 3, 4], 2).unwrap(), "BC");
}
