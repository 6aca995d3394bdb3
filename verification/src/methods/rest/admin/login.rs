//! Admin login: the configured admin gets a token that seals their credentials.
use vstd::prelude::*;

use crate::configs::env::EnvConfig;
use crate::methods::rest::admin::verify::is_admin;
use crate::models::error::{fails_with, ErrorResponse};
use crate::utils::decrypt::{decrypt_outcome, lemma_decrypt_inverts_encrypt};
use crate::utils::encrypt::{self, encrypt_failure, seals};

verus! {

/// Logs the admin in: when `username` and `password` are the configured admin's,
/// seals `credentials` (the login request, serialized) into the admin token;
/// otherwise refuses with "Invalid username or password.". Failures are
/// internal errors (status 500).
pub fn new(config: &EnvConfig, username: &String, password: &String, credentials: &[u8]) -> (r: Result<
    String,
    ErrorResponse,
>)
    ensures
        r matches Err(e) ==> e.status == 500,
        !is_admin(*config, username@, password@) ==> fails_with(r, "Invalid username or password."@),
        is_admin(*config, username@, password@) ==> match encrypt_failure(*config, credentials@) {
            Some(message) => fails_with(r, message),
            None => (r matches Ok(token) && seals(*config, token@, credentials@)),
        },
{
    if *username == config.admin_username && *password == config.admin_password {
        match encrypt::new(config, credentials) {
            Ok(token) => Ok(token),
            Err(message) => Err(ErrorResponse::internal(message)),
        }
    } else {
        Err(ErrorResponse::internal(String::from_str("Invalid username or password.")))
    }
}

/// An admin token opens to what it sealed: the token that login hands out
/// decrypts, under the same configuration, to the serialized credentials.
pub proof fn lemma_admin_token_opens(config: EnvConfig, token: Seq<char>, credentials: Seq<u8>)
    requires
        seals(config, token, credentials),
    ensures
        decrypt_outcome(config, token) == Ok::<Seq<u8>, Seq<char>>(credentials),
{
    lemma_decrypt_inverts_encrypt(config, token, credentials);
}

} // verus!
