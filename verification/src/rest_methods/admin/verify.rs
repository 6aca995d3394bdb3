//! An admin-token check that opens the token itself, with the key and the
//! sealed bytes read directly, and reports the bare error texts of the
//! primitives (without the step prefixes of `decrypt::new`).
use vstd::prelude::*;

use crate::configs::env::EnvConfig;
use crate::utils::cipher::{
    aead_key_from_slice, aead_open, aead_opened, base64_decode, crypto_error_text,
    standard_base64_decoding,
};
use crate::utils::encrypt::{secret_bytes, secret_usable};

verus! {

/// The credentials that an admin token seals.
pub struct Credentials {
    pub username: String,
    pub password: String,
}

/// What opening `token` gives: the sealed bytes, or the bare error text of the
/// step that failed.
pub open spec fn open_outcome(config: EnvConfig, token: Seq<char>) -> Result<Seq<u8>, Seq<char>> {
    if !secret_usable(config) {
        Err(crypto_error_text())
    } else {
        match standard_base64_decoding(token) {
            Err(text) => Err(text),
            Ok(sealed) => match aead_opened(secret_bytes(config), sealed) {
                Some(plaintext) => Ok(plaintext),
                None => Err(crypto_error_text()),
            },
        }
    }
}

/// The bytes or the message of a result.
pub open spec fn bytes_or_text(r: Result<Vec<u8>, String>) -> Result<Seq<u8>, Seq<char>> {
    match r {
        Ok(bytes) => Ok(bytes@),
        Err(message) => Err(message@),
    }
}

/// Opens an admin token under the configured secret: makes the key, decodes the
/// base64, opens the box.
pub fn open_token(config: &EnvConfig, token: &str) -> (r: Result<Vec<u8>, String>)
    ensures
        bytes_or_text(r) == open_outcome(*config, token@),
{
    let key = aead_key_from_slice(config.secret.as_str().as_bytes())?;
    let decoded = base64_decode(token)?;
    aead_open(&key, decoded.as_slice())
}

/// Whether the credentials opened from a token are the configured admin's.
pub fn credentials_match(config: &EnvConfig, credentials: &Credentials) -> (r: bool)
    ensures
        r == (credentials.username@ == config.admin_username@ && credentials.password@ == config.admin_password@),
{
    credentials.username == config.admin_username && credentials.password == config.admin_password
}

} // verus!
