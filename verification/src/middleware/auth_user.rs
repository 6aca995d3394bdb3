//! Session admission in front of the user endpoints.
use vstd::prelude::*;

use crate::models::auth_user::{verify_outcome, AUTH_USER};
use crate::utils::clock::now_millis;

verus! {

/// How an incoming call to a user endpoint is handled.
#[derive(Debug, PartialEq, Eq)]
pub enum Admission {
    /// Run the endpoint.
    Proceed,
    /// Answer 401 Unauthorized.
    Reject,
    /// The token has no live session: look it up, open a session for its user
    /// (`AUTH_USER::add`), and run the endpoint if that succeeds, else answer 401.
    Register,
}

/// The admission that a use answer calls for.
pub open spec fn admission_for(answer: Option<Option<crate::models::auth_user::UserState>>) -> Admission {
    match answer {
        Some(Some(_)) => Admission::Proceed,
        Some(None) => Admission::Reject,
        None => Admission::Register,
    }
}

/// Counts a use of the `authorization` token at `now` against its session and
/// decides: a request without a token is rejected; an admitted use proceeds; a
/// session whose window is used up is rejected; a token without a live session
/// is to be registered.
pub fn new_at(sessions: &mut AUTH_USER, token: Option<&str>, now: usize) -> (r: Admission)
    ensures
        token is None ==> r == Admission::Reject && final(sessions)@ == old(sessions)@,
        token matches Some(t) ==> final(sessions)@ == verify_outcome(old(sessions)@, t@, now).0 && r
            == admission_for(verify_outcome(old(sessions)@, t@, now).1),
{
    match token {
        None => Admission::Reject,
        Some(t) => match sessions.verify_at(t, now) {
            Ok(Some(_)) => Admission::Proceed,
            Ok(None) => Admission::Reject,
            Err(_) => Admission::Register,
        },
    }
}

/// The admission of a call now (see `new_at`).
pub fn new(sessions: &mut AUTH_USER, token: Option<&str>) -> (r: Admission)
    ensures
        token is None ==> r == Admission::Reject && final(sessions)@ == old(sessions)@,
        token matches Some(t) ==> exists|now: usize|
            final(sessions)@ == verify_outcome(old(sessions)@, t@, now).0 && r == admission_for(
                verify_outcome(old(sessions)@, t@, now).1,
            ),
{
    let now = now_millis();
    new_at(sessions, token, now)
}

} // verus!
