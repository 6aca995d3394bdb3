//! Opening a session for the watch-state endpoints.
pub mod add;
pub mod get;

use vstd::prelude::*;

use crate::models::auth_user::{add_outcome, AUTH_USER};
use crate::utils::clock::now_millis;

verus! {

/// Opens a session for `token` at `now` when the token belongs to a user (the
/// user found for it by the caller), and says whether it did.
pub fn auth_user_at(sessions: &mut AUTH_USER, token: &str, user: Option<String>, now: usize) -> (r: bool)
    ensures
        r == user is Some,
        final(sessions)@ == add_outcome(old(sessions)@, token@, user, now).0,
{
    sessions.add_at(token, user, now).is_ok()
}

/// Opens a session for `token` now (see `auth_user_at`).
pub fn auth_user(sessions: &mut AUTH_USER, token: &str, user: Option<String>) -> (r: bool)
    ensures
        r == user is Some,
        exists|now: usize| final(sessions)@ == add_outcome(old(sessions)@, token@, user, now).0,
{
    let now = now_millis();
    auth_user_at(sessions, token, user, now)
}

} // verus!
