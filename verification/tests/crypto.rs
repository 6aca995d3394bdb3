use base64::Engine;
use watch_sync::configs::env::EnvConfig;
use watch_sync::rest_methods::admin::verify::open_token;
use watch_sync::utils::password::{password_matches, seal_user_secrets};
use watch_sync::utils::{decrypt, encrypt};

fn config(secret: &str) -> EnvConfig {
    EnvConfig {
        secret: secret.to_string(),
        admin_username: "admin".to_string(),
        admin_password: "hunter22".to_string(),
    }
}

const SECRET: &str = "0123456789abcdef0123456789abcdef";

#[test]
fn encrypt_then_decrypt_round_trips() {
    let cfg = config(SECRET);
    let token = encrypt::new(&cfg, b"hello world").unwrap();
    assert_eq!(decrypt::new(&cfg, &token).unwrap(), b"hello world".to_vec());
}

#[test]
fn token_is_base64_of_nonce_box_and_tag() {
    let cfg = config(SECRET);
    let data = b"some credentials";
    let token = encrypt::new(&cfg, data).unwrap();
    let raw = base64::engine::general_purpose::STANDARD.decode(&token).unwrap();
    assert_eq!(raw.len(), data.len() + 40);
    assert_ne!(&raw[24..24 + data.len()], &data[..]);
}

#[test]
fn tokens_are_fresh_each_time() {
    let cfg = config(SECRET);
    let a = encrypt::new(&cfg, b"same").unwrap();
    let b = encrypt::new(&cfg, b"same").unwrap();
    assert_ne!(a, b);
    assert_eq!(decrypt::new(&cfg, &a).unwrap(), decrypt::new(&cfg, &b).unwrap());
}

#[test]
fn encrypt_with_empty_secret_fails_at_key() {
    let cfg = config("");
    assert_eq!(encrypt::new(&cfg, b"x").unwrap_err(), "[Encrypt] from_slice UnknownCryptoError");
}

#[test]
fn encrypt_with_short_secret_fails_at_seal() {
    let cfg = config("short");
    assert_eq!(encrypt::new(&cfg, b"x").unwrap_err(), "[Encrypt] seal UnknownCryptoError");
}

#[test]
fn encrypt_empty_data_fails_at_seal() {
    let cfg = config(SECRET);
    assert_eq!(encrypt::new(&cfg, b"").unwrap_err(), "[Encrypt] seal UnknownCryptoError");
}

#[test]
fn decrypt_with_empty_secret_fails_at_key() {
    let cfg = config("");
    let e = decrypt::new(&cfg, "AAAA").unwrap_err();
    assert_eq!(e.status, 500);
    assert_eq!(e.message, "[Decrypt] from_slice UnknownCryptoError");
}

#[test]
fn decrypt_bad_base64_reports_decode_error() {
    let cfg = config(SECRET);
    let expected = base64::engine::general_purpose::STANDARD.decode("@@@").unwrap_err().to_string();
    let e = decrypt::new(&cfg, "@@@").unwrap_err();
    assert_eq!(e.status, 500);
    assert_eq!(e.message, format!("[Decrypt] decode {}", expected));
}

#[test]
fn decrypt_forged_token_fails_at_open() {
    let cfg = config(SECRET);
    let forged = base64::engine::general_purpose::STANDARD.encode([7u8; 64]);
    let e = decrypt::new(&cfg, &forged).unwrap_err();
    assert_eq!(e.message, "[Decrypt] open UnknownCryptoError");
}

#[test]
fn decrypt_under_other_secret_fails_at_open() {
    let token = encrypt::new(&config(SECRET), b"data").unwrap();
    let other = config("abcdef0123456789abcdef0123456789");
    assert_eq!(decrypt::new(&other, &token).unwrap_err().message, "[Decrypt] open UnknownCryptoError");
}

#[test]
fn stored_password_checks_against_itself() {
    let cfg = config(SECRET);
    let stored = encrypt::new(&cfg, "correct horse".as_bytes()).unwrap();
    assert!(password_matches(&cfg, &stored, "correct horse").unwrap());
    assert!(!password_matches(&cfg, &stored, "wrong").unwrap());
}

#[test]
fn stored_password_not_utf8_is_an_error() {
    let cfg = config(SECRET);
    let stored = encrypt::new(&cfg, &[0xff, 0xfe]).unwrap();
    let expected = String::from_utf8(vec![0xff, 0xfe]).unwrap_err().to_string();
    let e = password_matches(&cfg, &stored, "x").unwrap_err();
    assert_eq!(e.status, 500);
    assert_eq!(e.message, expected);
}

#[test]
fn seal_user_secrets_seals_both() {
    let cfg = config(SECRET);
    let (token, sealed) = seal_user_secrets(&cfg, b"{\"id\":\"1\"}", "pässword").unwrap();
    assert_eq!(decrypt::new(&cfg, &token).unwrap(), b"{\"id\":\"1\"}".to_vec());
    assert!(password_matches(&cfg, &sealed, "pässword").unwrap());
}

#[test]
fn seal_user_secrets_reports_first_failure() {
    let cfg = config(SECRET);
    let e = seal_user_secrets(&cfg, b"creds", "").unwrap_err();
    assert_eq!(e.status, 500);
    assert_eq!(e.message, "[Encrypt] seal UnknownCryptoError");
    let e = seal_user_secrets(&config("bad"), b"creds", "pw").unwrap_err();
    assert_eq!(e.message, "[Encrypt] seal UnknownCryptoError");
}

#[test]
fn open_token_reports_bare_errors() {
    let cfg = config(SECRET);
    let token = encrypt::new(&cfg, b"payload").unwrap();
    assert_eq!(open_token(&cfg, &token).unwrap(), b"payload".to_vec());
    assert_eq!(open_token(&config(""), &token).unwrap_err(), "UnknownCryptoError");
    let forged = base64::engine::general_purpose::STANDARD.encode([1u8; 50]);
    assert_eq!(open_token(&cfg, &forged).unwrap_err(), "UnknownCryptoError");
    let expected = base64::engine::general_purpose::STANDARD.decode("!").unwrap_err().to_string();
    assert_eq!(open_token(&cfg, "!").unwrap_err(), expected);
}
