//! Sealing data into a token: orion AEAD under the configured secret, then base64.
use vstd::prelude::*;
use vstd::utf8::encode_utf8;

use crate::configs::env::EnvConfig;
use crate::utils::cipher::{
    aead_key_from_slice, aead_opened, aead_seal, base64_decodes_to, base64_encode, crypto_error_text,
    seal_accepts,
};

verus! {

/// The bytes of the configured secret (its UTF-8 encoding), which key the tokens.
pub open spec fn secret_bytes(config: EnvConfig) -> Seq<u8> {
    encode_utf8(config.secret@)
}

/// Whether orion accepts the secret as key material at all.
pub open spec fn secret_usable(config: EnvConfig) -> bool {
    0 < secret_bytes(config).len() <= isize::MAX
}

/// Why sealing `data` under the configured secret fails, if it does.
pub open spec fn encrypt_failure(config: EnvConfig, data: Seq<u8>) -> Option<Seq<char>> {
    if !secret_usable(config) {
        Some("[Encrypt] from_slice "@ + crypto_error_text())
    } else if !seal_accepts(secret_bytes(config), data.len()) {
        Some("[Encrypt] seal "@ + crypto_error_text())
    } else {
        None
    }
}

/// `token` is the base64 text of a sealed box that opens, under the configured
/// secret (a key orion seals with), to `data`.
pub open spec fn seals(config: EnvConfig, token: Seq<char>, data: Seq<u8>) -> bool {
    &&& seal_accepts(secret_bytes(config), data.len())
    &&& exists|sealed: Seq<u8>|
        #[trigger] base64_decodes_to(token, sealed) && aead_opened(secret_bytes(config), sealed) == Some(data)
            && sealed.len() == data.len() + 40
}

/// Seals `data` under the configured secret and returns the box as base64 text.
/// The error says which step failed: making the key, or sealing.
pub fn new(config: &EnvConfig, data: &[u8]) -> (r: Result<String, String>)
    ensures
        r is Err <==> encrypt_failure(*config, data@) is Some,
        r matches Err(message) ==> encrypt_failure(*config, data@) == Some(message@),
        r matches Ok(token) ==> seals(*config, token@, data@),
{
    let secret = config.secret.as_str().as_bytes();
    let key = match aead_key_from_slice(secret) {
        Ok(key) => key,
        Err(e) => {
            let mut message = String::from_str("[Encrypt] from_slice ");
            message.append(e.as_str());
            return Err(message);
        },
    };
    let sealed = match aead_seal(&key, data) {
        Ok(sealed) => sealed,
        Err(e) => {
            let mut message = String::from_str("[Encrypt] seal ");
            message.append(e.as_str());
            return Err(message);
        },
    };
    let token = base64_encode(sealed.as_slice());
    assert(base64_decodes_to(token@, sealed@));
    Ok(token)
}

} // verus!
