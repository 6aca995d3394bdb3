//! Reporting a playback position.
use vstd::prelude::*;

use crate::models::auth_user::{verify_outcome, UserState, AUTH_USER};
use crate::models::error::ErrorResponse;
use crate::utils::clock::now_millis;
use crate::models::watch_state::{is_cached, single_position, JobView, SourceView, WatchState, CACHE_WATCH_STATE};

verus! {

/// A reported position; `current_time` is the bit pattern of the `f64` seconds.
pub struct Payload {
    pub source: String,
    pub id: String,
    pub season_index: usize,
    pub episode_index: usize,
    pub current_time: u64,
    pub timestamp: usize,
}

/// The user's cache entry that a report writes at `now`.
pub open spec fn reported_entry(payload: Payload, now: usize) -> (SourceView, usize) {
    (
        single_position(
            payload.source@,
            payload.id@,
            payload.season_index,
            payload.episode_index,
            WatchState { current_time: payload.current_time, timestamp: payload.timestamp },
        ),
        now,
    )
}

/// A report of `payload` for `token`, with the use counted at `used_at` and the
/// position written at `written_at`, takes the sessions and the cache from
/// before to after and answers `r`.
pub open spec fn report_outcome(
    sessions_before: Map<Seq<char>, UserState>,
    cache_before: Map<Seq<char>, (SourceView, usize)>,
    token: Seq<char>,
    payload: Payload,
    sessions_after: Map<Seq<char>, UserState>,
    cache_after: Map<Seq<char>, (SourceView, usize)>,
    r: Result<(), ErrorResponse>,
    used_at: usize,
    written_at: usize,
) -> bool {
    let (after, answer) = verify_outcome(sessions_before, token, used_at);
    &&& sessions_after == after
    &&& match answer {
        None => r matches Err(e) && e.message@ == "Invalid token."@ && cache_after == cache_before,
        Some(None) => r matches Err(e) && e.message@ == "Unable to use this token."@ && cache_after
            == cache_before,
        Some(Some(state)) => r is Ok && cache_after == cache_before.insert(
            state.user_id@,
            reported_entry(payload, written_at),
        ),
    }
}

/// The position a report describes, as a job for `user`: the payload's source,
/// title, season and episode, with its position and time.
pub open spec fn reported_job(user: Seq<char>, payload: Payload) -> JobView {
    (
        user,
        payload.source@,
        payload.id@,
        payload.season_index,
        payload.episode_index,
        WatchState { current_time: payload.current_time, timestamp: payload.timestamp },
    )
}

/// An admitted report caches exactly the reported position, at the payload's
/// own keys: afterwards the cache holds it for the session's user, stamped with
/// the time it was written, and holds no other position for that user; every
/// other user's entry is as it was.
pub proof fn lemma_admitted_report_cached(
    sessions_before: Map<Seq<char>, UserState>,
    cache_before: Map<Seq<char>, (SourceView, usize)>,
    token: Seq<char>,
    payload: Payload,
    sessions_after: Map<Seq<char>, UserState>,
    cache_after: Map<Seq<char>, (SourceView, usize)>,
    r: Result<(), ErrorResponse>,
    used_at: usize,
    written_at: usize,
)
    requires
        report_outcome(
            sessions_before,
            cache_before,
            token,
            payload,
            sessions_after,
            cache_after,
            r,
            used_at,
            written_at,
        ),
        r is Ok,
    ensures
        verify_outcome(sessions_before, token, used_at).1 matches Some(Some(state)) && {
            let user = state.user_id@;
            &&& is_cached(cache_after, reported_job(user, payload))
            &&& cache_after[user].1 == written_at
            &&& forall|v: JobView| #[trigger] is_cached(cache_after, v) && v.0 == user ==> v == reported_job(user, payload)
            &&& forall|other: Seq<char>| other != user ==> (#[trigger] cache_after.dom().contains(other)
                == cache_before.dom().contains(other)) && (cache_before.dom().contains(other) ==> cache_after[other]
                == cache_before[other])
        },
{
    let state = verify_outcome(sessions_before, token, used_at).1->Some_0->Some_0;
    let user = state.user_id@;
    let job = reported_job(user, payload);
    assert(is_cached(cache_after, job));
    assert forall|v: JobView| #[trigger] is_cached(cache_after, v) && v.0 == user implies v == job by {
        assert(v.1 == payload.source@);
        assert(v.2 == payload.id@);
        assert(v.3 == payload.season_index);
        assert(v.4 == payload.episode_index);
    }
}

/// A refused report changes no cache entry: a token without a live session
/// fails with "Invalid token.", a session whose window is used up with "Unable
/// to use this token.".
pub proof fn lemma_refused_report_changes_nothing(
    sessions_before: Map<Seq<char>, UserState>,
    cache_before: Map<Seq<char>, (SourceView, usize)>,
    token: Seq<char>,
    payload: Payload,
    sessions_after: Map<Seq<char>, UserState>,
    cache_after: Map<Seq<char>, (SourceView, usize)>,
    r: Result<(), ErrorResponse>,
    used_at: usize,
    written_at: usize,
)
    requires
        report_outcome(
            sessions_before,
            cache_before,
            token,
            payload,
            sessions_after,
            cache_after,
            r,
            used_at,
            written_at,
        ),
    ensures
        verify_outcome(sessions_before, token, used_at).1 is None ==> cache_after == cache_before && (r matches Err(
            e,
        ) && e.message@ == "Invalid token."@),
        verify_outcome(sessions_before, token, used_at).1 == Some(None::<UserState>) ==> cache_after
            == cache_before && (r matches Err(e) && e.message@ == "Unable to use this token."@),
        r is Err ==> cache_after == cache_before,
{
}

/// Records a reported position for the session of `token`, the use counted at
/// `used_at` and the position written at `written_at`: a refused token fails
/// with "Invalid token.", a session whose window is used up with "Unable to use
/// this token." (both status 500), and an admitted use replaces the user's
/// cache entry.
pub fn new_at(
    sessions: &mut AUTH_USER,
    cache: &mut CACHE_WATCH_STATE,
    token: &str,
    payload: &Payload,
    used_at: usize,
    written_at: usize,
) -> (r: Result<(), ErrorResponse>)
    ensures
        r matches Err(e) ==> e.status == 500,
        report_outcome(
            old(sessions)@,
            old(cache)@,
            token@,
            *payload,
            final(sessions)@,
            final(cache)@,
            r,
            used_at,
            written_at,
        ),
        r is Ok ==> exists|user: Seq<char>| #[trigger] is_cached(final(cache)@, reported_job(user, *payload)),
{
    let ghost cache_before = cache@;
    let ghost sessions_before = sessions@;
    match sessions.verify_at(token, used_at) {
        Err(message) => Err(ErrorResponse::internal(message)),
        Ok(None) => Err(ErrorResponse::internal(String::from_str("Unable to use this token."))),
        Ok(Some(state)) => {
            cache.add_at(
                state.user_id.as_str(),
                payload.source.as_str(),
                payload.id.as_str(),
                payload.season_index,
                payload.episode_index,
                payload.current_time,
                payload.timestamp,
                written_at,
            );
            proof {
                lemma_admitted_report_cached(
                    sessions_before,
                    cache_before,
                    token@,
                    *payload,
                    sessions@,
                    cache@,
                    Ok(()),
                    used_at,
                    written_at,
                );
            }
            Ok(())
        },
    }
}

/// Records a reported position now (see `new_at`).
pub fn new(
    sessions: &mut AUTH_USER,
    cache: &mut CACHE_WATCH_STATE,
    token: &str,
    payload: &Payload,
) -> (r: Result<(), ErrorResponse>)
    ensures
        r matches Err(e) ==> e.status == 500,
        exists|used_at: usize, written_at: usize|
            #[trigger] report_outcome(
                old(sessions)@,
                old(cache)@,
                token@,
                *payload,
                final(sessions)@,
                final(cache)@,
                r,
                used_at,
                written_at,
            ),
{
    let used_at = now_millis();
    let written_at = now_millis();
    new_at(sessions, cache, token, payload, used_at, written_at)
}

} // verus!
