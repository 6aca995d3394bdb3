//! The watch-state socket: handshake and position reports.
use vstd::prelude::*;

use crate::models::auth_user::{verify_outcome, AUTH_USER};
use crate::utils::clock::now_millis;

verus! {

/// The handshake message of the socket.
pub struct Auth {
    pub token: String,
}

/// A position report over the socket; `current_time` is the bit pattern of the
/// `f64` seconds.
pub struct WatchStatePayload {
    pub user_token: String,
    pub source: String,
    pub id: String,
    pub season_index: usize,
    pub episode_index: usize,
    pub current_time: u64,
    pub timestamp: usize,
}

/// The handshake at `now`: the connection is authorized when the token is
/// accepted as a use of a live session (a use whose window is used up still
/// authorizes).
pub fn authorize_connection_at(sessions: &mut AUTH_USER, data: &Auth, now: usize) -> (r: bool)
    ensures
        final(sessions)@ == verify_outcome(old(sessions)@, data.token@, now).0,
        r == verify_outcome(old(sessions)@, data.token@, now).1 is Some,
{
    sessions.verify_at(data.token.as_str(), now).is_ok()
}

/// The handshake now (see `authorize_connection_at`).
pub fn authorize_connection(sessions: &mut AUTH_USER, data: &Auth) -> (r: bool)
    ensures
        exists|now: usize|
            final(sessions)@ == verify_outcome(old(sessions)@, data.token@, now).0 && r == verify_outcome(
                old(sessions)@,
                data.token@,
                now,
            ).1 is Some,
{
    let now = now_millis();
    authorize_connection_at(sessions, data, now)
}

} // verus!
