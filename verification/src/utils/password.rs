//! Passwords at rest: a user's password is stored sealed like a token, and
//! checked by opening it and comparing the text.
use vstd::prelude::*;
use vstd::utf8::{decode_utf8, encode_utf8, valid_utf8};

use crate::configs::env::EnvConfig;
use crate::models::error::ErrorResponse;
use crate::utils::cipher::AEAD_PLAINTEXT_MAX;
use crate::utils::credentials::{credentials_bound, credentials_json, credentials_text};
use crate::utils::decrypt::{self, decrypt_outcome, lemma_decrypt_inverts_encrypt};
use crate::utils::encrypt::{self, encrypt_failure, seals, secret_bytes};

verus! {

/// The display text of std's `FromUtf8Error` for these bytes.
pub uninterp spec fn utf8_error_text(bytes: Seq<u8>) -> Seq<char>;

/// `String::from_utf8`: the text of `bytes` when they are valid UTF-8, else the
/// display text of the `FromUtf8Error`.
#[verifier::external_body]
pub(crate) fn string_from_utf8(bytes: Vec<u8>) -> (r: Result<String, String>)
    ensures
        r is Ok <==> valid_utf8(bytes@),
        r matches Ok(text) ==> text@ == decode_utf8(bytes@),
        r matches Err(message) ==> message@ == utf8_error_text(bytes@),
{
    String::from_utf8(bytes).map_err(|e| e.to_string())
}

/// What checking `candidate` against the sealed password `stored` gives:
/// whether they are equal, or the message of the step that failed.
pub open spec fn password_check(config: EnvConfig, stored: Seq<char>, candidate: Seq<char>) -> Result<bool, Seq<char>> {
    match decrypt_outcome(config, stored) {
        Err(message) => Err(message),
        Ok(bytes) => if valid_utf8(bytes) {
            Ok(decode_utf8(bytes) == candidate)
        } else {
            Err(utf8_error_text(bytes))
        },
    }
}

/// The answer or the error message of a result.
pub open spec fn answer_or_message(r: Result<bool, ErrorResponse>) -> Result<bool, Seq<char>> {
    match r {
        Ok(answer) => Ok(answer),
        Err(e) => Err(e.message@),
    }
}

/// Opens the sealed password `stored` and compares it with `candidate`.
/// Failures are internal errors (status 500).
pub fn password_matches(config: &EnvConfig, stored: &str, candidate: &str) -> (r: Result<bool, ErrorResponse>)
    ensures
        answer_or_message(r) == password_check(*config, stored@, candidate@),
        r matches Err(e) ==> e.status == 500,
{
    let bytes = match decrypt::new(config, stored) {
        Ok(bytes) => bytes,
        Err(e) => return Err(e),
    };
    let text = match string_from_utf8(bytes) {
        Ok(text) => text,
        Err(message) => return Err(ErrorResponse::internal(message)),
    };
    let candidate_text = candidate.to_owned();
    Ok(text == candidate_text)
}

/// What sealing a user's credentials and password gives: the token and the
/// sealed password, or the message of the first sealing that failed.
pub open spec fn seal_user_failure(config: EnvConfig, credentials: Seq<u8>, password: Seq<char>) -> Option<Seq<char>> {
    if encrypt_failure(config, credentials) is Some {
        encrypt_failure(config, credentials)
    } else {
        encrypt_failure(config, encode_utf8(password))
    }
}

/// Seals a user's credentials (their serialized form) into a user token, and the
/// password into its stored form. Failures are internal errors (status 500)
/// with the message of `encrypt::new`.
pub fn seal_user_secrets(config: &EnvConfig, credentials: &[u8], password: &str) -> (r: Result<
    (String, String),
    ErrorResponse,
>)
    ensures
        r is Err <==> seal_user_failure(*config, credentials@, password@) is Some,
        r matches Err(e) ==> e.status == 500 && seal_user_failure(*config, credentials@, password@) == Some(
            e.message@,
        ),
        r matches Ok(sealed) ==> seals(*config, sealed.0@, credentials@) && seals(
            *config,
            sealed.1@,
            encode_utf8(password@),
        ),
{
    let token = match encrypt::new(config, credentials) {
        Ok(token) => token,
        Err(message) => return Err(ErrorResponse::internal(message)),
    };
    let sealed_password = match encrypt::new(config, password.as_bytes()) {
        Ok(sealed) => sealed,
        Err(message) => return Err(ErrorResponse::internal(message)),
    };
    Ok((token, sealed_password))
}

/// The UTF-8 encoding of a text takes one to four bytes a character.
pub proof fn lemma_utf8_len_bounds(chars: Seq<char>)
    ensures
        chars.len() <= encode_utf8(chars).len() <= 4 * chars.len(),
    decreases chars.len(),
{
    if chars.len() > 0 {
        lemma_utf8_len_bounds(chars.drop_first());
        let n = vstd::utf8::encode_scalar(chars[0] as u32).len();
        assert(1 <= n <= 4);
    }
}

/// Sealing accepts a plaintext of this many bytes (and of every shorter, non-empty one).
pub open spec fn sealable_len(n: int) -> bool {
    n <= AEAD_PLAINTEXT_MAX && n + 40 <= usize::MAX
}

/// Issuing a user's secrets succeeds: the secret is a 32-byte key, the password
/// is not empty, and the credentials text, at four bytes a character, is short
/// enough to seal.
pub open spec fn issue_accepted(config: EnvConfig, id: Seq<char>, email: Seq<char>, password: Seq<char>) -> bool {
    &&& secret_bytes(config).len() == 32
    &&& password.len() > 0
    &&& sealable_len(4 * credentials_bound(id, email, password))
}

/// Issues a user's secrets from their id, email and password: a token that seals
/// the credentials text, and the password sealed for storage. Failures are
/// internal errors (status 500) with the message of the sealing that failed;
/// with a 32-byte secret, a non-empty password and texts short enough to seal,
/// there is none.
pub fn issue_user_secrets(config: &EnvConfig, id: &str, email: &str, password: &str) -> (r: Result<
    (String, String),
    ErrorResponse,
>)
    ensures
        r is Err <==> seal_user_failure(*config, encode_utf8(credentials_text(id@, email@, password@)), password@) is Some,
        r matches Err(e) ==> e.status == 500 && seal_user_failure(
            *config,
            encode_utf8(credentials_text(id@, email@, password@)),
            password@,
        ) == Some(e.message@),
        r matches Ok(sealed) ==> seals(*config, sealed.0@, encode_utf8(credentials_text(id@, email@, password@)))
            && seals(*config, sealed.1@, encode_utf8(password@)),
        issue_accepted(*config, id@, email@, password@) ==> r is Ok,
{
    let credentials = match credentials_json(id, email, password) {
        Ok(text) => text,
        Err(message) => return Err(ErrorResponse::internal(message)),
    };
    proof {
        lemma_utf8_len_bounds(credentials@);
        lemma_utf8_len_bounds(password@);
    }
    seal_user_secrets(config, credentials.as_str().as_bytes(), password)
}

/// A password stored by `seal_user_secrets` checks against exactly itself:
/// checking a candidate against it answers whether the candidate is that password.
pub proof fn lemma_stored_password_checks(config: EnvConfig, stored: Seq<char>, password: Seq<char>, candidate: Seq<char>)
    requires
        seals(config, stored, encode_utf8(password)),
    ensures
        password_check(config, stored, candidate) == Ok::<bool, Seq<char>>(password == candidate),
{
    lemma_decrypt_inverts_encrypt(config, stored, encode_utf8(password));
    vstd::utf8::encode_utf8_valid_utf8(password);
    vstd::utf8::encode_utf8_decode_utf8(password);
}

} // verus!
