use watch_sync::methods::rest::user::watch_state::auth_user;
use watch_sync::middleware::auth_user::{self as gate, Admission};
use watch_sync::models::auth_user::{
    AUTH_USER, MAX_LIFE, MAX_PER_USE_COUNT, MAX_PER_USE_INTERVAL,
};

const T0: usize = 1_700_000_000_000;

fn store_with(token: &str, user: &str, opened: usize) -> AUTH_USER {
    let mut store = AUTH_USER::new();
    store.add_at(token, Some(user.to_string()), opened).unwrap();
    store
}

#[test]
fn unknown_token_is_refused() {
    let mut store = AUTH_USER::new();
    assert_eq!(store.verify_at("nope", T0).unwrap_err(), "Invalid token.");
}

#[test]
fn add_opens_fresh_session() {
    let mut store = AUTH_USER::new();
    let state = store.add_at("tok", Some("u1".to_string()), T0).unwrap();
    assert_eq!(state.user_id, "u1");
    assert_eq!(state.last_use_count, 0);
    assert_eq!(state.last_use_timestamp, T0);
    assert_eq!(state.timestamp, T0);
}

#[test]
fn add_without_user_is_refused() {
    let mut store = AUTH_USER::new();
    assert_eq!(store.add_at("tok", None, T0).unwrap_err(), "[auth_user:add] Invalid token.");
    assert_eq!(store.verify_at("tok", T0).unwrap_err(), "Invalid token.");
}

#[test]
fn first_use_counts_one() {
    let mut store = store_with("tok", "u1", T0);
    let state = store.verify_at("tok", T0 + 5).unwrap().unwrap();
    assert_eq!(state.user_id, "u1");
    assert_eq!(state.last_use_count, 1);
    assert_eq!(state.last_use_timestamp, T0);
    assert_eq!(state.timestamp, T0);
}

#[test]
fn window_admits_five_uses_then_refuses() {
    let mut store = store_with("tok", "u1", T0);
    for i in 1..=MAX_PER_USE_COUNT {
        let state = store.verify_at("tok", T0 + 100).unwrap().unwrap();
        assert_eq!(state.last_use_count, i);
    }
    assert!(store.verify_at("tok", T0 + 100).unwrap().is_none());
    assert!(store.verify_at("tok", T0 + MAX_PER_USE_INTERVAL).unwrap().is_none());
}

#[test]
fn window_limit_holds_for_uses_spread_over_the_window() {
    let mut store = store_with("tok", "u1", T0);
    let times = [T0, T0 + 1_000, T0 + 2_500, T0 + 4_000, T0 + 9_999, T0 + 10_000, T0 + 10_000];
    for (j, now) in times.iter().enumerate() {
        let answer = store.verify_at("tok", *now).unwrap();
        if j < MAX_PER_USE_COUNT {
            let state = answer.unwrap();
            assert_eq!(state.last_use_count, j + 1);
            assert_eq!(state.last_use_timestamp, T0);
            assert_eq!(state.timestamp, T0);
        } else {
            assert!(answer.is_none());
        }
    }
}

#[test]
fn new_window_resets_count() {
    let mut store = store_with("tok", "u1", T0);
    for _ in 0..MAX_PER_USE_COUNT {
        store.verify_at("tok", T0).unwrap().unwrap();
    }
    let later = T0 + MAX_PER_USE_INTERVAL + 1;
    let state = store.verify_at("tok", later).unwrap().unwrap();
    assert_eq!(state.last_use_count, 0);
    assert_eq!(state.last_use_timestamp, later);
    let again = store.verify_at("tok", later + 1).unwrap().unwrap();
    assert_eq!(again.last_use_count, 1);
}

#[test]
fn session_expires_after_max_life() {
    let mut store = store_with("tok", "u1", T0);
    assert!(store.verify_at("tok", T0 + MAX_LIFE).unwrap().is_some());
    assert_eq!(store.verify_at("tok", T0 + MAX_LIFE + 1).unwrap_err(), "Invalid token.");
}

#[test]
fn time_before_opening_counts_as_expired() {
    let mut store = store_with("tok", "u1", T0);
    assert_eq!(store.verify_at("tok", T0 - 1).unwrap_err(), "Invalid token.");
}

#[test]
fn other_sessions_untouched_by_use() {
    let mut store = store_with("a", "ua", T0);
    store.add_at("b", Some("ub".to_string()), T0).unwrap();
    for _ in 0..MAX_PER_USE_COUNT {
        store.verify_at("a", T0).unwrap().unwrap();
    }
    assert!(store.verify_at("a", T0).unwrap().is_none());
    assert_eq!(store.verify_at("b", T0).unwrap().unwrap().last_use_count, 1);
}

#[test]
fn sweep_drops_only_expired() {
    let mut store = store_with("old", "u1", T0);
    store.add_at("new", Some("u2".to_string()), T0 + MAX_LIFE).unwrap();
    store.sweep_at(T0 + MAX_LIFE + 1);
    assert_eq!(store.verify_at("old", T0 + MAX_LIFE).unwrap_err(), "Invalid token.");
    assert_eq!(store.verify_at("new", T0 + MAX_LIFE + 1).unwrap().unwrap().user_id, "u2");
}

#[test]
fn clock_based_add_then_verify() {
    let mut store = AUTH_USER::new();
    store.add("tok", Some("u1".to_string())).unwrap();
    let state = store.verify("tok").unwrap().unwrap();
    assert_eq!(state.user_id, "u1");
    assert_eq!(state.last_use_count, 1);
    store.sweep();
    assert!(store.verify("tok").unwrap().is_some());
}

#[test]
fn auth_user_reports_registration() {
    let mut store = AUTH_USER::new();
    assert!(!auth_user(&mut store, "tok", None));
    assert!(store.verify("tok").is_err());
    assert!(auth_user(&mut store, "tok", Some("u1".to_string())));
    assert!(store.verify("tok").unwrap().is_some());
}

#[test]
fn middleware_admission() {
    let mut store = AUTH_USER::new();
    assert_eq!(gate::new(&mut store, None), Admission::Reject);
    assert_eq!(gate::new(&mut store, Some("tok")), Admission::Register);
    store.add("tok", Some("u1".to_string())).unwrap();
    for _ in 0..MAX_PER_USE_COUNT {
        assert_eq!(gate::new(&mut store, Some("tok")), Admission::Proceed);
    }
    assert_eq!(gate::new(&mut store, Some("tok")), Admission::Reject);
}

#[test]
fn middleware_admission_at_given_times() {
    let mut store = AUTH_USER::new();
    assert_eq!(gate::new_at(&mut store, None, T0), Admission::Reject);
    assert_eq!(gate::new_at(&mut store, Some("tok"), T0), Admission::Register);
    store.add_at("tok", Some("u1".to_string()), T0).unwrap();
    for _ in 0..MAX_PER_USE_COUNT {
        assert_eq!(gate::new_at(&mut store, Some("tok"), T0 + 5), Admission::Proceed);
    }
    assert_eq!(gate::new_at(&mut store, Some("tok"), T0 + 6), Admission::Reject);
    assert_eq!(gate::new_at(&mut store, Some("tok"), T0 + MAX_PER_USE_INTERVAL + 1), Admission::Proceed);
    assert_eq!(gate::new_at(&mut store, Some("tok"), T0 + MAX_LIFE + 1), Admission::Register);
}

#[test]
fn opening_stays_before_window_start() {
    let mut store = store_with("tok", "u1", T0);
    let later = T0 + MAX_PER_USE_INTERVAL + 1;
    let state = store.verify_at("tok", later).unwrap().unwrap();
    assert_eq!(state.timestamp, T0);
    assert_eq!(state.last_use_timestamp, later);
    assert!(state.timestamp <= state.last_use_timestamp);
}
