//! User login by email and password.
use vstd::prelude::*;

use crate::configs::env::EnvConfig;
use crate::models::error::{fails_with, ErrorResponse};
use crate::utils::password::{password_check, password_matches};

verus! {

/// Logs a user in from the row found for the email (sealed password, token):
/// the user's token when the password is theirs; "User not found." when no row
/// was found, "Invalid email or password." when the password is not theirs.
/// Failures are internal errors (status 500).
pub fn new(config: &EnvConfig, found: Option<(String, String)>, password: &String) -> (r: Result<String, ErrorResponse>)
    ensures
        r matches Err(e) ==> e.status == 500,
        found is None ==> fails_with(r, "User not found."@),
        found matches Some(row) ==> match password_check(*config, row.0@, password@) {
            Err(message) => fails_with(r, message),
            Ok(false) => fails_with(r, "Invalid email or password."@),
            Ok(true) => r == Ok::<String, ErrorResponse>(row.1),
        },
{
    match found {
        None => Err(ErrorResponse::internal(String::from_str("User not found."))),
        Some((stored, token)) => match password_matches(config, stored.as_str(), password.as_str()) {
            Err(e) => Err(e),
            Ok(true) => Ok(token),
            Ok(false) => Err(ErrorResponse::internal(String::from_str("Invalid email or password."))),
        },
    }
}

} // verus!
