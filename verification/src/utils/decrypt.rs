//! Opening a token: base64, then orion AEAD under the configured secret.
use vstd::prelude::*;

use crate::configs::env::EnvConfig;
use crate::models::error::ErrorResponse;
use crate::utils::cipher::{
    aead_key_from_slice, aead_open, aead_opened, base64_decode, crypto_error_text,
    standard_base64_decoding,
};
use crate::utils::encrypt::{secret_bytes, secret_usable, seals};

verus! {

/// What opening the token `data` under the configured secret gives: the sealed
/// bytes, or the message of the step that failed.
pub open spec fn decrypt_outcome(config: EnvConfig, data: Seq<char>) -> Result<Seq<u8>, Seq<char>> {
    if !secret_usable(config) {
        Err("[Decrypt] from_slice "@ + crypto_error_text())
    } else {
        match standard_base64_decoding(data) {
            Err(text) => Err("[Decrypt] decode "@ + text),
            Ok(sealed) => match aead_opened(secret_bytes(config), sealed) {
                Some(plaintext) => Ok(plaintext),
                None => Err("[Decrypt] open "@ + crypto_error_text()),
            },
        }
    }
}

/// The bytes or the error message of a result.
pub open spec fn bytes_or_message(r: Result<Vec<u8>, ErrorResponse>) -> Result<Seq<u8>, Seq<char>> {
    match r {
        Ok(bytes) => Ok(bytes@),
        Err(e) => Err(e.message@),
    }
}

/// Opens a token made by `encrypt::new` under the configured secret. Every
/// failure is an internal error (status 500) that names the failing step.
pub fn new(config: &EnvConfig, data: &str) -> (r: Result<Vec<u8>, ErrorResponse>)
    ensures
        bytes_or_message(r) == decrypt_outcome(*config, data@),
        r matches Err(e) ==> e.status == 500,
{
    let secret = config.secret.as_str().as_bytes();
    let key = match aead_key_from_slice(secret) {
        Ok(key) => key,
        Err(e) => {
            let mut message = String::from_str("[Decrypt] from_slice ");
            message.append(e.as_str());
            return Err(ErrorResponse::internal(message));
        },
    };
    let decoded = match base64_decode(data) {
        Ok(decoded) => decoded,
        Err(e) => {
            let mut message = String::from_str("[Decrypt] decode ");
            message.append(e.as_str());
            return Err(ErrorResponse::internal(message));
        },
    };
    match aead_open(&key, decoded.as_slice()) {
        Ok(plaintext) => Ok(plaintext),
        Err(e) => {
            let mut message = String::from_str("[Decrypt] open ");
            message.append(e.as_str());
            Err(ErrorResponse::internal(message))
        },
    }
}

/// What a token seals, opening it gives back: a token that `encrypt::new` made
/// from `data` under a configuration opens to `data` under that configuration.
pub proof fn lemma_decrypt_inverts_encrypt(config: EnvConfig, token: Seq<char>, data: Seq<u8>)
    requires
        seals(config, token, data),
    ensures
        decrypt_outcome(config, token) == Ok::<Seq<u8>, Seq<char>>(data),
{
    let sealed = choose|sealed: Seq<u8>|
        #[trigger] crate::utils::cipher::base64_decodes_to(token, sealed) && aead_opened(secret_bytes(config), sealed)
            == Some(data) && sealed.len() == data.len() + 40;
}

} // verus!
