use watch_sync::methods::rest::user::watch_state::add::{self, Payload};
use watch_sync::methods::rest::user::watch_state::auth_user_at;
use watch_sync::methods::rest::user::watch_state::get::answer;
use watch_sync::methods::socket::watch_state::{authorize_connection, authorize_connection_at, Auth};
use watch_sync::models::auth_user::{AUTH_USER, MAX_PER_USE_COUNT};
use watch_sync::models::watch_state::{plan_upload, WatchState, CACHE_WATCH_STATE};

fn bits(seconds: f64) -> u64 {
    seconds.to_bits()
}

#[test]
fn report_becomes_one_upload_job() {
    let mut cache = CACHE_WATCH_STATE::new();
    assert!(cache.pending_uploads().is_empty());
    cache.add_at("u1", "src", "title", 2, 7, bits(12.5), 1000, 5000);
    let jobs = cache.pending_uploads();
    assert_eq!(jobs.len(), 1);
    let job = &jobs[0];
    assert_eq!(job.user_id, "u1");
    assert_eq!(job.source, "src");
    assert_eq!(job.id, "title");
    assert_eq!(job.season_index, 2);
    assert_eq!(job.episode_index, 7);
    assert_eq!(job.state, WatchState { current_time: bits(12.5), timestamp: 1000 });
    assert_eq!(f64::from_bits(job.state.current_time), 12.5);
}

#[test]
fn later_report_replaces_user_entry() {
    let mut cache = CACHE_WATCH_STATE::new();
    cache.add_at("u1", "src", "a", 1, 1, bits(1.0), 10, 100);
    cache.add_at("u1", "src", "b", 3, 4, bits(2.0), 20, 200);
    let jobs = cache.pending_uploads();
    assert_eq!(jobs.len(), 1);
    assert_eq!(jobs[0].id, "b");
    assert_eq!(jobs[0].season_index, 3);
    assert_eq!(jobs[0].episode_index, 4);
}

#[test]
fn each_user_keeps_own_entry() {
    let mut cache = CACHE_WATCH_STATE::new();
    cache.add_at("u1", "s", "a", 1, 1, bits(1.0), 10, 100);
    cache.add_at("u2", "s", "b", 1, 2, bits(3.0), 30, 100);
    let mut users: Vec<String> = cache.pending_uploads().into_iter().map(|j| j.user_id).collect();
    users.sort();
    assert_eq!(users, vec!["u1".to_string(), "u2".to_string()]);
}

#[test]
fn expire_drops_entries_not_newer_than_flush() {
    let mut cache = CACHE_WATCH_STATE::new();
    cache.add_at("old", "s", "a", 1, 1, bits(1.0), 10, 100);
    cache.add_at("same", "s", "a", 1, 1, bits(1.0), 10, 150);
    cache.add_at("new", "s", "a", 1, 1, bits(1.0), 10, 151);
    cache.expire_at(150);
    let jobs = cache.pending_uploads();
    assert_eq!(jobs.len(), 1);
    assert_eq!(jobs[0].user_id, "new");
}

#[test]
fn clock_based_report_is_cached() {
    let mut cache = CACHE_WATCH_STATE::new();
    cache.add("u1", "s", "a", 1, 1, bits(4.0), 10);
    assert_eq!(cache.pending_uploads().len(), 1);
}

#[test]
fn upload_skips_newer_stored_position() {
    assert!(plan_upload(Some(2000), "u", "s", "i", 1, 2, bits(1.0), 1999).is_none());
}

#[test]
fn upload_writes_when_stored_not_newer() {
    let row = plan_upload(Some(2000), "u", "s", "i", 1, 2, bits(1.5), 2000).unwrap();
    assert_eq!(row.user_id, "u");
    assert_eq!(row.source, "s");
    assert_eq!(row.id, "i");
    assert_eq!(row.season_index, 1);
    assert_eq!(row.episode_index, 2);
    assert_eq!(row.current_time, bits(1.5));
    assert_eq!(row.timestamp, 2000);
    assert_eq!(row.watch_state_id.len(), 32);
    assert!(plan_upload(None, "u", "s", "i", 1, 2, bits(1.5), 0).is_some());
}

#[test]
fn upload_casts_like_the_table() {
    let row = plan_upload(None, "u", "s", "i", (1usize << 32) + 5, usize::MAX, 0, usize::MAX).unwrap();
    assert_eq!(row.season_index, 5);
    assert_eq!(row.episode_index, -1);
    assert_eq!(row.timestamp, -1);
}

#[test]
fn negative_stored_timestamp_reads_as_huge() {
    assert!(plan_upload(Some(-1), "u", "s", "i", 0, 0, 0, usize::MAX - 1).is_none());
}

fn payload() -> Payload {
    Payload {
        source: "src".to_string(),
        id: "title".to_string(),
        season_index: 1,
        episode_index: 3,
        current_time: bits(42.0),
        timestamp: 77,
    }
}

#[test]
fn report_with_unknown_token_fails() {
    let mut sessions = AUTH_USER::new();
    let mut cache = CACHE_WATCH_STATE::new();
    let e = add::new(&mut sessions, &mut cache, "nope", &payload()).unwrap_err();
    assert_eq!(e.status, 500);
    assert_eq!(e.message, "Invalid token.");
    assert!(cache.pending_uploads().is_empty());
}

#[test]
fn report_with_session_is_cached_for_its_user() {
    let mut sessions = AUTH_USER::new();
    let mut cache = CACHE_WATCH_STATE::new();
    sessions.add("tok", Some("user-9".to_string())).unwrap();
    add::new(&mut sessions, &mut cache, "tok", &payload()).unwrap();
    let jobs = cache.pending_uploads();
    assert_eq!(jobs.len(), 1);
    assert_eq!(jobs[0].user_id, "user-9");
    assert_eq!(jobs[0].episode_index, 3);
    assert_eq!(jobs[0].state.timestamp, 77);
}

#[test]
fn report_over_use_limit_fails() {
    let mut sessions = AUTH_USER::new();
    let mut cache = CACHE_WATCH_STATE::new();
    sessions.add("tok", Some("u".to_string())).unwrap();
    for _ in 0..MAX_PER_USE_COUNT {
        add::new(&mut sessions, &mut cache, "tok", &payload()).unwrap();
    }
    let e = add::new(&mut sessions, &mut cache, "tok", &payload()).unwrap_err();
    assert_eq!(e.message, "Unable to use this token.");
}

#[test]
fn socket_handshake_authorizes_live_sessions() {
    let mut sessions = AUTH_USER::new();
    assert!(!authorize_connection(&mut sessions, &Auth { token: "tok".to_string() }));
    sessions.add("tok", Some("u".to_string())).unwrap();
    assert!(authorize_connection(&mut sessions, &Auth { token: "tok".to_string() }));
}

const T0: usize = 1_700_000_000_000;

#[test]
fn report_at_given_times_writes_entry_time() {
    let mut sessions = AUTH_USER::new();
    let mut cache = CACHE_WATCH_STATE::new();
    sessions.add_at("tok", Some("u".to_string()), T0).unwrap();
    add::new_at(&mut sessions, &mut cache, "tok", &payload(), T0 + 10, T0 + 20).unwrap();
    // The entry was written at T0 + 20: a flush at that time drops it, one just before keeps it.
    cache.expire_at(T0 + 19);
    assert_eq!(cache.pending_uploads().len(), 1);
    cache.expire_at(T0 + 20);
    assert!(cache.pending_uploads().is_empty());
    // A use after the session's life is refused.
    let e = add::new_at(&mut sessions, &mut cache, "tok", &payload(), T0 + 300_001, T0 + 300_001).unwrap_err();
    assert_eq!(e.message, "Invalid token.");
}

#[test]
fn socket_handshake_at_given_time() {
    let mut sessions = AUTH_USER::new();
    sessions.add_at("tok", Some("u".to_string()), T0).unwrap();
    let auth = Auth { token: "tok".to_string() };
    for _ in 0..MAX_PER_USE_COUNT {
        assert!(authorize_connection_at(&mut sessions, &auth, T0 + 1));
    }
    // A use past the window's limit still authorizes; an expired session does not.
    assert!(authorize_connection_at(&mut sessions, &auth, T0 + 2));
    assert!(!authorize_connection_at(&mut sessions, &auth, T0 + 300_001));
}

#[test]
fn position_answer_found_or_not() {
    assert_eq!(answer(Some((bits(12.5), 900))).unwrap(), (bits(12.5), 900));
    assert_eq!(answer(Some((0, -1))).unwrap(), (0, usize::MAX));
    let e = answer(None).unwrap_err();
    assert_eq!(e.status, 404);
    assert_eq!(e.message, "Watch state not found.");
}

#[test]
fn session_opened_at_given_time() {
    let mut sessions = AUTH_USER::new();
    assert!(!auth_user_at(&mut sessions, "tok", None, T0));
    assert!(auth_user_at(&mut sessions, "tok", Some("u".to_string()), T0));
    let state = sessions.verify_at("tok", T0 + 1).unwrap().unwrap();
    assert_eq!(state.timestamp, T0);
    assert_eq!(state.last_use_count, 1);
}
