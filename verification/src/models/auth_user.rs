//! Short-lived user sessions with a per-window use limit.
//!
//! A session is opened for a user token once the token is known to belong to a
//! user. It lives `MAX_LIFE` milliseconds from its opening. Inside any window of
//! `MAX_PER_USE_INTERVAL` milliseconds it can be used at most
//! `MAX_PER_USE_COUNT` times; a use after the window has passed opens a new window.
use dashmap::DashMap;
use vstd::prelude::*;

use crate::utils::clock::now_millis;

verus! {

/// How long a session lives, in milliseconds.
pub const MAX_LIFE: usize = 5 * 60 * 1000;
/// How many uses one window admits.
pub const MAX_PER_USE_COUNT: usize = 5;
/// How long a use window lasts, in milliseconds.
pub const MAX_PER_USE_INTERVAL: usize = 10 * 1000;

/// The state kept for one session.
#[derive(Debug)]
pub struct UserState {
    pub user_id: String,
    pub last_use_count: usize,
    pub last_use_timestamp: usize,
    pub timestamp: usize,
}

impl Clone for UserState {
    fn clone(&self) -> (r: Self)
        ensures
            r == *self,
    {
        UserState {
            user_id: self.user_id.clone(),
            last_use_count: self.last_use_count,
            last_use_timestamp: self.last_use_timestamp,
            timestamp: self.timestamp,
        }
    }
}

/// What a session map holds: the state of each token.
pub uninterp spec fn session_entries(map: DashMap<String, UserState>) -> Map<Seq<char>, UserState>;

/// `DashMap::new`: an empty map.
#[verifier::external_body]
fn sessions_new() -> (r: DashMap<String, UserState>)
    ensures
        session_entries(r) =~= Map::empty(),
{
    DashMap::new()
}

/// `DashMap::get`, the found state cloned out: the state under `token`, if any.
#[verifier::external_body]
fn sessions_get(map: &DashMap<String, UserState>, token: &str) -> (r: Option<UserState>)
    ensures
        r == session_entries(*map).get(token@),
{
    map.get(token).map(|entry| entry.value().clone())
}

/// `DashMap::insert`: `state` is stored under `token`, replacing any state there.
#[verifier::external_body]
fn sessions_insert(map: &mut DashMap<String, UserState>, token: String, state: UserState)
    ensures
        session_entries(*final(map)) == session_entries(*old(map)).insert(token@, state),
{
    map.insert(token, state);
}

/// `DashMap::retain` with a test of the library: exactly the live sessions stay.
#[verifier::external_body]
fn sessions_retain_live(map: &mut DashMap<String, UserState>, now: usize)
    ensures
        session_entries(*final(map)) == session_entries(*old(map)).filter_keys(
            |token: Seq<char>| session_live(session_entries(*old(map))[token], now),
        ),
{
    map.retain(|_, state| session_is_live(state, now));
}

/// Milliseconds from `since` to `now`, computed as `now - since` on `usize`
/// with wrap-around (a `since` after `now` gives a very large value).
pub open spec fn elapsed(now: usize, since: usize) -> int {
    if now >= since {
        now - since
    } else {
        now - since + usize::MAX + 1
    }
}

/// The session has not outlived `MAX_LIFE`.
pub open spec fn session_live(state: UserState, now: usize) -> bool {
    elapsed(now, state.timestamp) <= MAX_LIFE
}

/// The session's current use window is still open.
pub open spec fn window_open(state: UserState, now: usize) -> bool {
    elapsed(now, state.last_use_timestamp) <= MAX_PER_USE_INTERVAL
}

/// A fresh session for `user_id` opened at `now`.
pub open spec fn fresh_state(user_id: String, now: usize) -> UserState {
    UserState { user_id, last_use_count: 0, last_use_timestamp: now, timestamp: now }
}

/// What a use of `token` at `now` does: the sessions afterwards, and the answer
/// (`None` for a refused token, `Some(None)` for a live session whose window is
/// used up, `Some(Some(state))` for an admitted use with the updated state).
pub open spec fn verify_outcome(sessions: Map<Seq<char>, UserState>, token: Seq<char>, now: usize) -> (
    Map<Seq<char>, UserState>,
    Option<Option<UserState>>,
) {
    if sessions.dom().contains(token) && session_live(sessions[token], now) {
        let state = sessions[token];
        if window_open(state, now) {
            if state.last_use_count < MAX_PER_USE_COUNT {
                let next = UserState { last_use_count: (state.last_use_count + 1) as usize, ..state };
                (sessions.insert(token, next), Some(Some(next)))
            } else {
                (sessions, Some(None))
            }
        } else {
            let next = UserState { last_use_count: 0, last_use_timestamp: now, ..state };
            (sessions.insert(token, next), Some(Some(next)))
        }
    } else {
        (sessions, None)
    }
}

/// What opening a session for `token` does, given the user that the token
/// belongs to (`None` when it belongs to no user).
pub open spec fn add_outcome(
    sessions: Map<Seq<char>, UserState>,
    token: Seq<char>,
    user: Option<String>,
    now: usize,
) -> (Map<Seq<char>, UserState>, Option<UserState>) {
    match user {
        Some(user_id) => (sessions.insert(token, fresh_state(user_id, now)), Some(fresh_state(user_id, now))),
        None => (sessions, None),
    }
}

/// The sessions that a sweep at `now` keeps.
pub open spec fn sweep_outcome(sessions: Map<Seq<char>, UserState>, now: usize) -> Map<Seq<char>, UserState> {
    sessions.filter_keys(|token: Seq<char>| session_live(sessions[token], now))
}

/// The answer of a use, as `verify_outcome` gives it.
pub open spec fn verify_answer(r: Result<Option<UserState>, String>) -> Option<Option<UserState>> {
    match r {
        Ok(answer) => Some(answer),
        Err(_) => None,
    }
}

/// The sessions after, and the answers of, uses of `token` at the instants
/// `times`, one after the other.
pub open spec fn uses_at(sessions: Map<Seq<char>, UserState>, token: Seq<char>, times: Seq<usize>) -> (
    Map<Seq<char>, UserState>,
    Seq<Option<Option<UserState>>>,
)
    decreases times.len(),
{
    if times.len() == 0 {
        (sessions, Seq::empty())
    } else {
        let (after, answer) = verify_outcome(sessions, token, times[0]);
        let (last, answers) = uses_at(after, token, times.drop_first());
        (last, seq![answer] + answers)
    }
}

/// The answer to the use that comes `i` uses after the session stood at `state`,
/// all in one window: admitted while the window's count stays under
/// `MAX_PER_USE_COUNT`, refused with `Some(None)` after.
pub open spec fn window_answer(state: UserState, i: int) -> Option<Option<UserState>> {
    if state.last_use_count + i < MAX_PER_USE_COUNT {
        Some(Some(UserState { last_use_count: (state.last_use_count + i + 1) as usize, ..state }))
    } else {
        Some(None)
    }
}

/// A use of `token` at `now` finds a live session whose use window has passed.
pub open spec fn reopens_window(sessions: Map<Seq<char>, UserState>, token: Seq<char>, now: usize) -> bool {
    &&& sessions.dom().contains(token)
    &&& session_live(sessions[token], now)
    &&& elapsed(now, sessions[token].last_use_timestamp) > MAX_PER_USE_INTERVAL
}

/// The session `state` with a new window opened at `now`, no use counted yet.
pub open spec fn reopened_state(state: UserState, now: usize) -> UserState {
    UserState { user_id: state.user_id, last_use_count: 0, last_use_timestamp: now, timestamp: state.timestamp }
}

/// Every session has used at most `MAX_PER_USE_COUNT` uses of its window.
pub open spec fn counts_bounded(sessions: Map<Seq<char>, UserState>) -> bool {
    forall|token: Seq<char>|
        sessions.dom().contains(token) ==> #[trigger] sessions[token].last_use_count <= MAX_PER_USE_COUNT
}

/// A session that was just opened admits a use: a token registered at `opened`
/// is accepted at any `now` up to `MAX_PER_USE_INTERVAL` later, as its first use.
pub proof fn lemma_new_session_admits_use(
    sessions: Map<Seq<char>, UserState>,
    token: Seq<char>,
    user_id: String,
    opened: usize,
    now: usize,
)
    requires
        opened <= now,
        now - opened <= MAX_PER_USE_INTERVAL,
    ensures
        ({
            let after_add = add_outcome(sessions, token, Some(user_id), opened).0;
            let used = UserState { user_id, last_use_count: 1, last_use_timestamp: opened, timestamp: opened };
            verify_outcome(after_add, token, now) == (sessions.insert(token, used), Some(Some(used)))
        }),
{
    let after_add = add_outcome(sessions, token, Some(user_id), opened).0;
    let used = UserState { user_id, last_use_count: 1, last_use_timestamp: opened, timestamp: opened };
    assert(after_add.insert(token, used) =~= sessions.insert(token, used));
}

/// Inside one use window, spread over any instants at which the session is
/// live and its window still open, uses are admitted until the window's count
/// reaches `MAX_PER_USE_COUNT`; every further use in that window is refused with
/// `Some(None)` and changes nothing.
pub proof fn lemma_window_admits_bounded_uses(
    sessions: Map<Seq<char>, UserState>,
    token: Seq<char>,
    times: Seq<usize>,
)
    requires
        sessions.dom().contains(token),
        sessions[token].last_use_count <= MAX_PER_USE_COUNT,
        forall|i: int|
            0 <= i < times.len() ==> session_live(sessions[token], #[trigger] times[i]) && window_open(
                sessions[token],
                times[i],
            ),
    ensures
        uses_at(sessions, token, times).1.len() == times.len(),
        forall|i: int|
            0 <= i < times.len() ==> #[trigger] uses_at(sessions, token, times).1[i] == window_answer(
                sessions[token],
                i,
            ),
    decreases times.len(),
{
    if times.len() > 0 {
        let (after, answer) = verify_outcome(sessions, token, times[0]);
        let rest_times = times.drop_first();
        assert forall|i: int| 0 <= i < rest_times.len() implies session_live(after[token], #[trigger] rest_times[i])
            && window_open(after[token], rest_times[i]) by {
            assert(rest_times[i] == times[i + 1]);
        }
        lemma_window_admits_bounded_uses(after, token, rest_times);
        let answers = uses_at(sessions, token, times).1;
        let rest = uses_at(after, token, rest_times).1;
        assert(answers == seq![answer] + rest);
        assert forall|i: int| 0 <= i < times.len() implies #[trigger] answers[i] == window_answer(
            sessions[token],
            i,
        ) by {
            if i > 0 {
                assert(answers[i] == rest[i - 1]);
            }
        }
    }
}

/// A fresh session admits exactly `MAX_PER_USE_COUNT` uses inside its first
/// window: of uses at any instants from its opening up to `MAX_PER_USE_INTERVAL`
/// later, the `j`-th (counting from 0) is admitted with count `j + 1` while
/// `j < MAX_PER_USE_COUNT`, and every later one is refused with `Some(None)`.
pub proof fn lemma_fresh_session_use_limit(
    sessions: Map<Seq<char>, UserState>,
    token: Seq<char>,
    user_id: String,
    opened: usize,
    times: Seq<usize>,
)
    requires
        forall|i: int| 0 <= i < times.len() ==> opened <= #[trigger] times[i] <= opened + MAX_PER_USE_INTERVAL,
    ensures
        ({
            let answers = uses_at(add_outcome(sessions, token, Some(user_id), opened).0, token, times).1;
            &&& answers.len() == times.len()
            &&& forall|j: int|
                0 <= j < times.len() && j < MAX_PER_USE_COUNT ==> #[trigger] answers[j] == Some(
                    Some(
                        UserState {
                            user_id,
                            last_use_count: (j + 1) as usize,
                            last_use_timestamp: opened,
                            timestamp: opened,
                        },
                    ),
                )
            &&& forall|j: int| MAX_PER_USE_COUNT <= j < times.len() ==> #[trigger] answers[j] == Some(None::<UserState>)
        }),
{
    let after_add = add_outcome(sessions, token, Some(user_id), opened).0;
    lemma_window_admits_bounded_uses(after_add, token, times);
}

/// A use of a live session whose window has passed is admitted and opens a new
/// window at `now` with no use counted in it yet, whatever the old window's
/// count was; the session keeps its user and its opening time.
pub proof fn lemma_passed_window_reopens(sessions: Map<Seq<char>, UserState>, token: Seq<char>, now: usize)
    requires
        sessions.dom().contains(token),
        session_live(sessions[token], now),
        elapsed(now, sessions[token].last_use_timestamp) > MAX_PER_USE_INTERVAL,
    ensures
        ({
            let state = sessions[token];
            let reopened = UserState {
                user_id: state.user_id,
                last_use_count: 0,
                last_use_timestamp: now,
                timestamp: state.timestamp,
            };
            &&& verify_outcome(sessions, token, now).1 == Some(Some(reopened))
            &&& verify_outcome(sessions, token, now).0 == sessions.insert(token, reopened)
        }),
{
}

/// After a use that reopens a passed window at `now`, the session admits
/// `MAX_PER_USE_COUNT` further uses in the new window, at any instants up to
/// `MAX_PER_USE_INTERVAL` after `now` at which it is still live: the `j`-th of
/// them (counting from 0) is admitted with count `j + 1` while
/// `j < MAX_PER_USE_COUNT`, and every later one is refused with `Some(None)`.
pub proof fn lemma_reopened_window_admits_full_count(
    sessions: Map<Seq<char>, UserState>,
    token: Seq<char>,
    now: usize,
    times: Seq<usize>,
)
    requires
        sessions.dom().contains(token),
        session_live(sessions[token], now),
        elapsed(now, sessions[token].last_use_timestamp) > MAX_PER_USE_INTERVAL,
        forall|i: int|
            0 <= i < times.len() ==> now <= #[trigger] times[i] <= now + MAX_PER_USE_INTERVAL && session_live(
                sessions[token],
                times[i],
            ),
    ensures
        ({
            let state = sessions[token];
            let answers = uses_at(verify_outcome(sessions, token, now).0, token, times).1;
            &&& answers.len() == times.len()
            &&& forall|j: int|
                0 <= j < times.len() && j < MAX_PER_USE_COUNT ==> #[trigger] answers[j] == Some(
                    Some(
                        UserState {
                            user_id: state.user_id,
                            last_use_count: (j + 1) as usize,
                            last_use_timestamp: now,
                            timestamp: state.timestamp,
                        },
                    ),
                )
            &&& forall|j: int| MAX_PER_USE_COUNT <= j < times.len() ==> #[trigger] answers[j] == Some(None::<UserState>)
        }),
{
    lemma_passed_window_reopens(sessions, token, now);
    let after = verify_outcome(sessions, token, now).0;
    assert(after[token].timestamp == sessions[token].timestamp);
    lemma_window_admits_bounded_uses(after, token, times);
}

/// A use touches only its own session, and never changes which user a session
/// belongs to or when it was opened.
pub proof fn lemma_use_touches_only_its_session(
    sessions: Map<Seq<char>, UserState>,
    token: Seq<char>,
    now: usize,
)
    ensures
        ({
            let after = verify_outcome(sessions, token, now).0;
            &&& after.dom() == sessions.dom()
            &&& forall|other: Seq<char>| other != token && sessions.dom().contains(other) ==> #[trigger] after[other] == sessions[other]
            &&& sessions.dom().contains(token) ==> after[token].user_id == sessions[token].user_id && after[token].timestamp
                == sessions[token].timestamp
        }),
{
    let after = verify_outcome(sessions, token, now).0;
    if sessions.dom().contains(token) {
        assert(after.dom() =~= sessions.dom());
    }
}

/// An unknown or outlived token is refused and changes nothing.
pub proof fn lemma_dead_token_refused(sessions: Map<Seq<char>, UserState>, token: Seq<char>, now: usize)
    requires
        !sessions.dom().contains(token) || !session_live(sessions[token], now),
    ensures
        verify_outcome(sessions, token, now) == (sessions, None::<Option<UserState>>),
{
}

/// No session ever exceeds `MAX_PER_USE_COUNT` uses in a window: uses, openings
/// and sweeps all keep the bound.
pub proof fn lemma_counts_stay_bounded(
    sessions: Map<Seq<char>, UserState>,
    token: Seq<char>,
    user: Option<String>,
    now: usize,
)
    requires
        counts_bounded(sessions),
    ensures
        counts_bounded(verify_outcome(sessions, token, now).0),
        counts_bounded(add_outcome(sessions, token, user, now).0),
        counts_bounded(sweep_outcome(sessions, now)),
{
    let used = verify_outcome(sessions, token, now).0;
    assert forall|k: Seq<char>| used.dom().contains(k) implies #[trigger] used[k].last_use_count
        <= MAX_PER_USE_COUNT by {
        if k != token {
            assert(used[k] == sessions[k]);
        }
    }
    let added = add_outcome(sessions, token, user, now).0;
    assert forall|k: Seq<char>| added.dom().contains(k) implies #[trigger] added[k].last_use_count
        <= MAX_PER_USE_COUNT by {
        if k != token {
            assert(added[k] == sessions[k]);
        }
    }
}

/// Every session was opened no later than its window started.
pub open spec fn openings_precede_windows(sessions: Map<Seq<char>, UserState>) -> bool {
    forall|token: Seq<char>|
        sessions.dom().contains(token) ==> #[trigger] sessions[token].timestamp <= sessions[token].last_use_timestamp
}

/// A session's opening never passes the start of its use window: uses,
/// openings and sweeps keep that order, for a clock reading that is not behind
/// the opening of the session it uses (a reading behind it wraps around).
pub proof fn lemma_opening_precedes_window(
    sessions: Map<Seq<char>, UserState>,
    token: Seq<char>,
    user: Option<String>,
    now: usize,
)
    requires
        openings_precede_windows(sessions),
        sessions.dom().contains(token) ==> sessions[token].timestamp <= now,
    ensures
        openings_precede_windows(verify_outcome(sessions, token, now).0),
        openings_precede_windows(add_outcome(sessions, token, user, now).0),
        openings_precede_windows(sweep_outcome(sessions, now)),
{
    let used = verify_outcome(sessions, token, now).0;
    assert forall|k: Seq<char>| used.dom().contains(k) implies #[trigger] used[k].timestamp
        <= used[k].last_use_timestamp by {
        if k != token {
            assert(used[k] == sessions[k]);
        }
    }
    let added = add_outcome(sessions, token, user, now).0;
    assert forall|k: Seq<char>| added.dom().contains(k) implies #[trigger] added[k].timestamp
        <= added[k].last_use_timestamp by {
        if k != token {
            assert(added[k] == sessions[k]);
        }
    }
}

/// A sweep keeps exactly the sessions that are still live, unchanged.
pub proof fn lemma_sweep_keeps_exactly_live(sessions: Map<Seq<char>, UserState>, now: usize)
    ensures
        forall|token: Seq<char>| #[trigger]
            sweep_outcome(sessions, now).dom().contains(token) <==> sessions.dom().contains(token)
                && session_live(sessions[token], now),
        forall|token: Seq<char>| #[trigger]
            sweep_outcome(sessions, now).dom().contains(token) ==> sweep_outcome(sessions, now)[token]
                == sessions[token],
{
}

/// `now - since` with wrap-around.
fn elapsed_millis(now: usize, since: usize) -> (r: usize)
    ensures
        r == elapsed(now, since),
{
    if now >= since {
        now - since
    } else {
        now + (usize::MAX - since) + 1
    }
}

/// Whether the session is still live at `now`.
pub fn session_is_live(state: &UserState, now: usize) -> (r: bool)
    ensures
        r == session_live(*state, now),
{
    elapsed_millis(now, state.timestamp) <= MAX_LIFE
}

/// The sessions of the service, keyed by user token.
#[allow(non_camel_case_types)]
pub struct AUTH_USER {
    sessions: DashMap<String, UserState>,
}

impl View for AUTH_USER {
    type V = Map<Seq<char>, UserState>;

    closed spec fn view(&self) -> Map<Seq<char>, UserState> {
        session_entries(self.sessions)
    }
}

impl AUTH_USER {
    /// No sessions.
    pub fn new() -> (r: AUTH_USER)
        ensures
            r@ == Map::<Seq<char>, UserState>::empty(),
    {
        AUTH_USER { sessions: sessions_new() }
    }

    /// A use of `token` at time `now`: refused with "Invalid token." when no live
    /// session has the token; otherwise counted against the session's use window.
    pub fn verify_at(&mut self, token: &str, now: usize) -> (r: Result<Option<UserState>, String>)
        ensures
            final(self)@ == verify_outcome(old(self)@, token@, now).0,
            verify_answer(r) == verify_outcome(old(self)@, token@, now).1,
            r matches Err(message) ==> message@ == "Invalid token."@,
            reopens_window(old(self)@, token@, now) ==> r == Ok::<Option<UserState>, String>(
                Some(reopened_state(old(self)@[token@], now)),
            ),
    {
        proof {
            if reopens_window(old(self)@, token@, now) {
                lemma_passed_window_reopens(old(self)@, token@, now);
            }
        }
        if let Some(state) = sessions_get(&self.sessions, token) {
            if session_is_live(&state, now) {
                if elapsed_millis(now, state.last_use_timestamp) <= MAX_PER_USE_INTERVAL {
                    if state.last_use_count < MAX_PER_USE_COUNT {
                        let next = UserState { last_use_count: state.last_use_count + 1, ..state };
                        sessions_insert(&mut self.sessions, token.to_owned(), next.clone());
                        return Ok(Some(next));
                    } else {
                        return Ok(None);
                    }
                } else {
                    let next = UserState { last_use_count: 0, last_use_timestamp: now, ..state };
                    sessions_insert(&mut self.sessions, token.to_owned(), next.clone());
                    return Ok(Some(next));
                }
            }
        }
        Err(String::from_str("Invalid token."))
    }

    /// A use of `token` now (see `verify_at`).
    pub fn verify(&mut self, token: &str) -> (r: Result<Option<UserState>, String>)
        ensures
            exists|now: usize|
                final(self)@ == verify_outcome(old(self)@, token@, now).0 && verify_answer(r)
                    == verify_outcome(old(self)@, token@, now).1,
            r matches Err(message) ==> message@ == "Invalid token."@,
    {
        let now = now_millis();
        self.verify_at(token, now)
    }

    /// Opens a session for `token` at `now`, given the user that the token belongs
    /// to (looked up by the caller); a token of no user is refused.
    pub fn add_at(&mut self, token: &str, user: Option<String>, now: usize) -> (r: Result<UserState, String>)
        ensures
            final(self)@ == add_outcome(old(self)@, token@, user, now).0,
            r matches Ok(state) ==> add_outcome(old(self)@, token@, user, now).1 == Some(state),
            r is Err <==> user is None,
            r matches Err(message) ==> message@ == "[auth_user:add] Invalid token."@,
    {
        match user {
            Some(user_id) => {
                let state = UserState {
                    user_id,
                    last_use_count: 0,
                    last_use_timestamp: now,
                    timestamp: now,
                };
                sessions_insert(&mut self.sessions, token.to_owned(), state.clone());
                Ok(state)
            },
            None => Err(String::from_str("[auth_user:add] Invalid token.")),
        }
    }

    /// Opens a session for `token` now (see `add_at`).
    pub fn add(&mut self, token: &str, user: Option<String>) -> (r: Result<UserState, String>)
        ensures
            exists|now: usize|
                final(self)@ == add_outcome(old(self)@, token@, user, now).0 && (r matches Ok(state)
                    ==> add_outcome(old(self)@, token@, user, now).1 == Some(state)),
            r is Err <==> user is None,
            r matches Err(message) ==> message@ == "[auth_user:add] Invalid token."@,
    {
        let now = now_millis();
        self.add_at(token, user, now)
    }

    /// Drops every session that has outlived `MAX_LIFE` at `now`.
    pub fn sweep_at(&mut self, now: usize)
        ensures
            final(self)@ == sweep_outcome(old(self)@, now),
    {
        sessions_retain_live(&mut self.sessions, now);
    }

    /// Drops every session that has outlived `MAX_LIFE` now.
    pub fn sweep(&mut self)
        ensures
            exists|now: usize| final(self)@ == sweep_outcome(old(self)@, now),
    {
        let now = now_millis();
        self.sweep_at(now);
    }
}

} // verus!
