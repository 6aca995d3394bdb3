//! Checking an admin token.
use vstd::prelude::*;

use crate::configs::env::EnvConfig;

verus! {

/// The credentials that an admin token seals.
pub struct Credentials {
    pub username: String,
    pub password: String,
}

/// The username and password are the configured admin's.
pub open spec fn is_admin(config: EnvConfig, username: Seq<char>, password: Seq<char>) -> bool {
    username == config.admin_username@ && password == config.admin_password@
}

/// Whether the credentials opened from a token are the configured admin's.
pub fn credentials_match(config: &EnvConfig, credentials: &Credentials) -> (r: bool)
    ensures
        r == is_admin(*config, credentials.username@, credentials.password@),
{
    credentials.username == config.admin_username && credentials.password == config.admin_password
}

} // verus!
