//! Changing a user's password.
use vstd::prelude::*;
use vstd::utf8::encode_utf8;

use crate::configs::env::EnvConfig;
use crate::models::error::ErrorResponse;
use crate::utils::credentials::credentials_text;
use crate::utils::decrypt::{decrypt_outcome, lemma_decrypt_inverts_encrypt};
use crate::utils::encrypt::seals;
use crate::utils::password::{
    issue_accepted, issue_user_secrets, lemma_stored_password_checks, password_check, password_matches, seal_user_failure,
};

verus! {

/// The length of a text in bytes (its UTF-8 encoding), as `str::len` counts.
pub open spec fn byte_len(text: Seq<char>) -> nat {
    encode_utf8(text).len()
}

/// Why a requested password change is refused before any lookup, if it is.
pub open spec fn change_rejection(current: Seq<char>, new: Seq<char>) -> Option<Seq<char>> {
    if current == new {
        Some("Current and new password cannot be the same."@)
    } else if byte_len(new) < 8 {
        Some("Password too short."@)
    } else if byte_len(current) > 32 || byte_len(new) > 32 {
        Some("Password too long."@)
    } else {
        None
    }
}

/// The rules on a new password: it differs from the current one, and both are
/// at most 32 bytes, the new one at least 8.
pub fn validate(current_password: &String, new_password: &String) -> (r: Result<(), ErrorResponse>)
    requires
        byte_len(current_password@) <= usize::MAX,
        byte_len(new_password@) <= usize::MAX,
    ensures
        r is Err <==> change_rejection(current_password@, new_password@) is Some,
        r matches Err(e) ==> e.status == 500 && change_rejection(current_password@, new_password@) == Some(
            e.message@,
        ),
        current_password@ != new_password@ && 8 <= byte_len(new_password@) && byte_len(new_password@) <= 32
            && byte_len(current_password@) <= 32 ==> r is Ok,
        r is Ok ==> current_password@ != new_password@ && 8 <= byte_len(new_password@) && byte_len(new_password@)
            <= 32 && byte_len(current_password@) <= 32,
{
    if *current_password == *new_password {
        return Err(ErrorResponse::internal(String::from_str("Current and new password cannot be the same.")));
    }
    if new_password.as_str().len() < 8 {
        return Err(ErrorResponse::internal(String::from_str("Password too short.")));
    }
    if current_password.as_str().len() > 32 || new_password.as_str().len() > 32 {
        return Err(ErrorResponse::internal(String::from_str("Password too long.")));
    }
    Ok(())
}

/// The rules on a change are exactly these, whatever else holds: the passwords
/// differ, the new one is 8 to 32 bytes long and the current one at most 32;
/// a current password of any length up to 32, short ones included, passes.
pub proof fn lemma_change_rules(current: Seq<char>, new: Seq<char>)
    ensures
        change_rejection(current, new) is None <==> (current != new && 8 <= byte_len(new) && byte_len(new) <= 32
            && byte_len(current) <= 32),
{
}

/// Which rule refuses a change: equal passwords first, then a new password
/// under 8 bytes, then either password over 32 bytes.
pub proof fn lemma_change_rule_messages(current: Seq<char>, new: Seq<char>)
    ensures
        current == new ==> change_rejection(current, new) == Some(
            "Current and new password cannot be the same."@,
        ),
        current != new && byte_len(new) < 8 ==> change_rejection(current, new) == Some("Password too short."@),
        current != new && 8 <= byte_len(new) && (byte_len(current) > 32 || byte_len(new) > 32)
            ==> change_rejection(current, new) == Some("Password too long."@),
{
}

/// What authenticating a change gives, from the row found for the user's token
/// (sealed password, id, email): the id and email, or the refusal message.
pub open spec fn authentication_outcome(
    config: EnvConfig,
    found: Option<(String, String, String)>,
    current: Seq<char>,
) -> Result<(Seq<char>, Seq<char>), Seq<char>> {
    match found {
        None => Err("User not found."@),
        Some(row) => match password_check(config, row.0@, current) {
            Err(message) => Err(message),
            Ok(false) => Err("Incorrect current password."@),
            Ok(true) => if row.1@.len() == 0 || row.2@.len() == 0 {
                Err("Invalid user token."@)
            } else {
                Ok((row.1@, row.2@))
            },
        },
    }
}

/// The id and email, or the error message, of a result.
pub open spec fn identity_or_message(r: Result<(String, String), ErrorResponse>) -> Result<(Seq<char>, Seq<char>), Seq<char>> {
    match r {
        Ok(identity) => Ok((identity.0@, identity.1@)),
        Err(e) => Err(e.message@),
    }
}

/// Authenticates a password change: the current password must be the one stored
/// for the user found by token, and the user's id and email must be present.
/// Failures are internal errors (status 500).
pub fn authenticate(config: &EnvConfig, found: Option<(String, String, String)>, current_password: &String) -> (r: Result<
    (String, String),
    ErrorResponse,
>)
    ensures
        identity_or_message(r) == authentication_outcome(*config, found, current_password@),
        r matches Err(e) ==> e.status == 500,
{
    match found {
        None => Err(ErrorResponse::internal(String::from_str("User not found."))),
        Some((password, id, email)) => {
            match password_matches(config, password.as_str(), current_password.as_str()) {
                Err(e) => Err(e),
                Ok(false) => Err(ErrorResponse::internal(String::from_str("Incorrect current password."))),
                Ok(true) => {
                    if id.as_str().is_empty() || email.as_str().is_empty() {
                        Err(ErrorResponse::internal(String::from_str("Invalid user token.")))
                    } else {
                        Ok((id, email))
                    }
                },
            }
        },
    }
}

/// What a password change writes: the user whose row changes, the new token,
/// and the new password sealed for storage.
#[derive(Debug)]
pub struct PasswordChange {
    pub user_id: String,
    pub token: String,
    pub sealed_password: String,
}

/// Why a password change fails after the lookup, if it does: the refusal of
/// `authenticate`, else the failure of sealing the new secrets.
pub open spec fn change_failure(
    config: EnvConfig,
    found: Option<(String, String, String)>,
    current: Seq<char>,
    new: Seq<char>,
) -> Option<Seq<char>> {
    match authentication_outcome(config, found, current) {
        Err(message) => Some(message),
        Ok(identity) => seal_user_failure(config, encode_utf8(credentials_text(identity.0, identity.1, new)), new),
    }
}

/// The change writes, for the authenticated user, a token that seals their id,
/// email and new password, and the new password sealed.
pub open spec fn change_applied(
    config: EnvConfig,
    found: Option<(String, String, String)>,
    current: Seq<char>,
    new: Seq<char>,
    change: PasswordChange,
) -> bool {
    match authentication_outcome(config, found, current) {
        Err(_) => false,
        Ok(identity) => {
            &&& change.user_id@ == identity.0
            &&& seals(config, change.token@, encode_utf8(credentials_text(identity.0, identity.1, new)))
            &&& seals(config, change.sealed_password@, encode_utf8(new))
        },
    }
}

/// The change goes through: the user authenticates, and their new secrets can
/// be issued (see `issue_accepted`).
pub open spec fn change_accepted(
    config: EnvConfig,
    found: Option<(String, String, String)>,
    current: Seq<char>,
    new: Seq<char>,
) -> bool {
    match authentication_outcome(config, found, current) {
        Ok(identity) => issue_accepted(config, identity.0, identity.1, new),
        Err(_) => false,
    }
}

/// Carries out a password change on the row found for the user's token
/// (sealed password, id, email): authenticates it, then issues the user's new
/// token and sealed password. Failures are internal errors (status 500).
pub fn apply(
    config: &EnvConfig,
    found: Option<(String, String, String)>,
    current_password: &String,
    new_password: &String,
) -> (r: Result<PasswordChange, ErrorResponse>)
    ensures
        r is Err <==> change_failure(*config, found, current_password@, new_password@) is Some,
        r matches Err(e) ==> e.status == 500 && change_failure(*config, found, current_password@, new_password@)
            == Some(e.message@),
        r matches Ok(change) ==> change_applied(*config, found, current_password@, new_password@, change),
        change_accepted(*config, found, current_password@, new_password@) ==> r is Ok,
{
    let (user_id, user_email) = match authenticate(config, found, current_password) {
        Ok(identity) => identity,
        Err(e) => return Err(e),
    };
    let (token, sealed_password) = match issue_user_secrets(
        config,
        user_id.as_str(),
        user_email.as_str(),
        new_password.as_str(),
    ) {
        Ok(sealed) => sealed,
        Err(e) => return Err(e),
    };
    Ok(PasswordChange { user_id, token, sealed_password })
}

/// Why a password change fails, if it does: the rules on the new password
/// first, then `change_failure`.
pub open spec fn password_change_failure(
    config: EnvConfig,
    found: Option<(String, String, String)>,
    current: Seq<char>,
    new: Seq<char>,
) -> Option<Seq<char>> {
    if change_rejection(current, new) is Some {
        change_rejection(current, new)
    } else {
        change_failure(config, found, current, new)
    }
}

/// A password change, decided on the row found for the user's token (sealed
/// password, id, email): the rules on the new password (`validate`), then the
/// authentication and the new secrets (`apply`). Failures are internal errors
/// (status 500).
pub fn new(
    config: &EnvConfig,
    found: Option<(String, String, String)>,
    current_password: &String,
    new_password: &String,
) -> (r: Result<PasswordChange, ErrorResponse>)
    requires
        byte_len(current_password@) <= usize::MAX,
        byte_len(new_password@) <= usize::MAX,
    ensures
        r is Err <==> password_change_failure(*config, found, current_password@, new_password@) is Some,
        r matches Err(e) ==> e.status == 500 && password_change_failure(
            *config,
            found,
            current_password@,
            new_password@,
        ) == Some(e.message@),
        r matches Ok(change) ==> change_applied(*config, found, current_password@, new_password@, change),
        change_rejection(current_password@, new_password@) is None && change_accepted(
            *config,
            found,
            current_password@,
            new_password@,
        ) ==> r is Ok,
{
    match validate(current_password, new_password) {
        Err(e) => Err(e),
        Ok(()) => apply(config, found, current_password, new_password),
    }
}

/// After a change, the new token opens to the user's credentials with the new
/// password, and the stored password checks against exactly the new password.
pub proof fn lemma_change_takes_effect(
    config: EnvConfig,
    found: Option<(String, String, String)>,
    current: Seq<char>,
    new: Seq<char>,
    change: PasswordChange,
    candidate: Seq<char>,
)
    requires
        change_applied(config, found, current, new, change),
    ensures
        ({
            let identity = authentication_outcome(config, found, current)->Ok_0;
            &&& decrypt_outcome(config, change.token@) == Ok::<Seq<u8>, Seq<char>>(
                encode_utf8(credentials_text(identity.0, identity.1, new)),
            )
            &&& password_check(config, change.sealed_password@, candidate) == Ok::<bool, Seq<char>>(
                new == candidate,
            )
        }),
{
    let identity = authentication_outcome(config, found, current)->Ok_0;
    lemma_decrypt_inverts_encrypt(config, change.token@, encode_utf8(credentials_text(identity.0, identity.1, new)));
    lemma_stored_password_checks(config, change.sealed_password@, new, candidate);
}

} // verus!
