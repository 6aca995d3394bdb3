use std::sync::Arc;

use dashmap::DashMap;
use watch_sync::configs::env::EnvConfig;
use watch_sync::methods::rest::admin::get_all_user::User;
use watch_sync::methods::rest::admin::verify::{credentials_match, Credentials};
use watch_sync::methods::rest::admin::{login, require_admin};
use watch_sync::methods::rest::paging::{page_in_range, page_offset};
use watch_sync::methods::rest::user::change_password::{apply, authenticate, new as change_new, validate};
use watch_sync::methods::rest::user::favorite::add::{plan_favorite_add, FavoriteWrite};
use watch_sync::methods::rest::user::favorite::get::Favorite;
use watch_sync::models::error::ErrorResponse;
use watch_sync::rest_methods::admin::verify as bare_verify;
use watch_sync::rest_methods::user::login as user_login;
use watch_sync::utils::credentials::credentials_json;
use watch_sync::utils::ids::{new_record_id, remove_hyphens};
use watch_sync::utils::password::{issue_user_secrets, password_matches};
use watch_sync::utils::{decrypt, encrypt};
use watch_sync::worker::favorite::clean_empty_tags::{empty_tags_threshold, EMPTY_TAGS_KEEP_MILLIS};

const SECRET: &str = "0123456789abcdef0123456789abcdef";

fn config() -> EnvConfig {
    EnvConfig {
        secret: SECRET.to_string(),
        admin_username: "admin".to_string(),
        admin_password: "hunter22".to_string(),
    }
}

fn s(text: &str) -> String {
    text.to_string()
}

#[test]
fn config_registry_get() {
    let registry: DashMap<usize, Arc<EnvConfig>> = DashMap::new();
    registry.insert(0, Arc::new(config()));
    let cfg = EnvConfig::get(&registry);
    assert_eq!(cfg.admin_username, "admin");
    assert_eq!(cfg.secret, SECRET);
}

#[test]
fn config_registry_try_get() {
    let registry: DashMap<usize, Arc<EnvConfig>> = DashMap::new();
    assert!(EnvConfig::try_get(&registry).is_none());
    registry.insert(0, Arc::new(config()));
    assert_eq!(EnvConfig::try_get(&registry).unwrap().admin_password, "hunter22");
}

#[test]
fn error_text_is_message() {
    let e = ErrorResponse::internal(s("boom"));
    assert_eq!(e.status, 500);
    assert_eq!(e.to_text(), "boom");
}

#[test]
fn admin_gate() {
    assert!(require_admin(true).is_ok());
    let e = require_admin(false).unwrap_err();
    assert_eq!(e.status, 500);
    assert_eq!(e.message, "Invalid admin token.");
}

#[test]
fn admin_login_refuses_wrong_credentials() {
    let e = login::new(&config(), &s("admin"), &s("nope"), b"{}").unwrap_err();
    assert_eq!(e.status, 500);
    assert_eq!(e.message, "Invalid username or password.");
    let e = login::new(&config(), &s("root"), &s("hunter22"), b"{}").unwrap_err();
    assert_eq!(e.message, "Invalid username or password.");
}

#[test]
fn admin_login_token_opens_to_credentials() {
    let creds = br#"{"username":"admin","password":"hunter22"}"#;
    let token = login::new(&config(), &s("admin"), &s("hunter22"), creds).unwrap();
    assert_eq!(decrypt::new(&config(), &token).unwrap(), creds.to_vec());
    assert_eq!(bare_verify::open_token(&config(), &token).unwrap(), creds.to_vec());
}

#[test]
fn admin_login_reports_seal_failure() {
    let mut cfg = config();
    cfg.secret = s("short");
    let e = login::new(&cfg, &s("admin"), &s("hunter22"), b"{}").unwrap_err();
    assert_eq!(e.message, "[Encrypt] seal UnknownCryptoError");
}

#[test]
fn admin_credentials_match() {
    let good = Credentials { username: s("admin"), password: s("hunter22") };
    let bad = Credentials { username: s("admin"), password: s("x") };
    assert!(credentials_match(&config(), &good));
    assert!(!credentials_match(&config(), &bad));
    let bare = bare_verify::Credentials { username: s("admin"), password: s("hunter22") };
    assert!(bare_verify::credentials_match(&config(), &bare));
}

#[test]
fn paging_offsets() {
    assert_eq!(page_offset(1, 20), 0);
    assert_eq!(page_offset(3, 20), 40);
    assert_eq!(page_offset(2, 15), 15);
    assert!(!page_in_range(0, 20));
    assert!(page_in_range(1, 20));
    assert!(!page_in_range(usize::MAX, 20));
}

#[test]
fn rows_cast_timestamps() {
    let user = User::from_row((s("id"), s("e@x"), s("name"), 1234, true));
    assert_eq!(user.timestamp, 1234);
    assert!(user.status);
    assert_eq!(user.email, "e@x");
    let fav = Favorite::from_row(s("src"), s("id"), Some(vec![s("a")]), Some(1), None, -1);
    assert_eq!(fav.timestamp, usize::MAX);
    assert_eq!(fav.tags, vec![s("a")]);
    assert_eq!(fav.current_watch_season_index, Some(1));
    assert_eq!(fav.current_watch_episode_index, None);
    let untagged = Favorite::from_row(s("src"), s("id"), None, None, None, 5);
    assert!(untagged.tags.is_empty());
    assert_eq!(untagged.timestamp, 5);
}

#[test]
fn password_change_rules() {
    assert_eq!(validate(&s("samepass1"), &s("samepass1")).unwrap_err().message, "Current and new password cannot be the same.");
    assert_eq!(validate(&s("oldpass12"), &s("short")).unwrap_err().message, "Password too short.");
    let long = "x".repeat(33);
    assert_eq!(validate(&long, &s("newpass12")).unwrap_err().message, "Password too long.");
    assert_eq!(validate(&s("oldpass12"), &long).unwrap_err().message, "Password too long.");
    assert!(validate(&s("oldpass12"), &s("newpass12")).is_ok());
    // length counts bytes: four two-byte letters make eight bytes
    assert!(validate(&s("oldpass12"), &s("éééé")).is_ok());
    assert_eq!(validate(&s("oldpass12"), &s("ééé")).unwrap_err().message, "Password too short.");
    let e = validate(&s("a"), &s("a")).unwrap_err();
    assert_eq!(e.status, 500);
}

#[test]
fn password_change_authentication() {
    let cfg = config();
    let stored = encrypt::new(&cfg, b"current1").unwrap();
    assert_eq!(authenticate(&cfg, None, &s("current1")).unwrap_err().message, "User not found.");
    let row = (stored.clone(), s("id1"), s("a@b"));
    assert_eq!(authenticate(&cfg, Some(row.clone()), &s("other")).unwrap_err().message, "Incorrect current password.");
    assert_eq!(authenticate(&cfg, Some(row), &s("current1")).unwrap(), (s("id1"), s("a@b")));
    let no_email = (stored, s("id1"), s(""));
    assert_eq!(authenticate(&cfg, Some(no_email), &s("current1")).unwrap_err().message, "Invalid user token.");
    let broken = (s("@@@"), s("id1"), s("a@b"));
    assert!(authenticate(&cfg, Some(broken), &s("current1")).unwrap_err().message.starts_with("[Decrypt] decode "));
}

#[test]
fn user_login_by_password() {
    let cfg = config();
    let stored = encrypt::new(&cfg, b"secret-pw").unwrap();
    assert_eq!(user_login::new(&cfg, None, &s("secret-pw")).unwrap_err().message, "User not found.");
    let row = (stored, s("user-token"));
    assert_eq!(user_login::new(&cfg, Some(row.clone()), &s("secret-pw")).unwrap(), "user-token");
    let e = user_login::new(&cfg, Some(row), &s("guess")).unwrap_err();
    assert_eq!(e.status, 500);
    assert_eq!(e.message, "Invalid email or password.");
}

#[test]
fn record_ids_are_compact_hex() {
    let a = new_record_id();
    let b = new_record_id();
    assert_eq!(a.len(), 32);
    assert!(a.chars().all(|c| c.is_ascii_digit() || ('a'..='f').contains(&c)));
    assert_ne!(a, b);
    let digits: Vec<char> = a.chars().collect();
    assert_eq!(digits[12], '7');
    assert!(['8', '9', 'a', 'b'].contains(&digits[16]));
}

#[test]
fn hyphens_removed() {
    assert_eq!(remove_hyphens("0189-abcd-ef"), "0189abcdef");
    assert_eq!(remove_hyphens("---"), "");
    assert_eq!(remove_hyphens("plain"), "plain");
}

#[test]
fn credentials_text_is_the_json_object() {
    let text = credentials_json("id1", "a@b", "pw\"x").unwrap();
    let value: serde_json::Value = serde_json::from_str(&text).unwrap();
    assert_eq!(value["id"], "id1");
    assert_eq!(value["email"], "a@b");
    assert_eq!(value["password"], "pw\"x");
    assert_eq!(value.as_object().unwrap().len(), 3);
    let mut object = serde_json::Map::new();
    object.insert("id".to_string(), serde_json::Value::String("id1".to_string()));
    object.insert("email".to_string(), serde_json::Value::String("a@b".to_string()));
    object.insert("password".to_string(), serde_json::Value::String("pw\"x".to_string()));
    assert_eq!(text, serde_json::to_string(&serde_json::Value::Object(object)).unwrap());
}

#[test]
fn issued_token_opens_to_credentials() {
    let cfg = config();
    let (token, sealed) = issue_user_secrets(&cfg, "id1", "a@b", "new-pass1").unwrap();
    let opened = decrypt::new(&cfg, &token).unwrap();
    let value: serde_json::Value = serde_json::from_slice(&opened).unwrap();
    assert_eq!(value["id"], "id1");
    assert_eq!(value["email"], "a@b");
    assert_eq!(value["password"], "new-pass1");
    assert!(password_matches(&cfg, &sealed, "new-pass1").unwrap());
    assert!(!password_matches(&cfg, &sealed, "new-pass2").unwrap());
}

#[test]
fn issue_reports_seal_failure() {
    let mut cfg = config();
    cfg.secret = String::new();
    let e = issue_user_secrets(&cfg, "id1", "a@b", "new-pass1").unwrap_err();
    assert_eq!(e.status, 500);
    assert!(e.message.starts_with("[Encrypt] "));
}

#[test]
fn password_change_applies_new_secrets() {
    let cfg = config();
    let stored = encrypt::new(&cfg, b"current1").unwrap();
    let row = (stored, s("id1"), s("a@b"));
    let change = apply(&cfg, Some(row.clone()), &s("current1"), &s("brand-new1")).unwrap();
    assert_eq!(change.user_id, "id1");
    let value: serde_json::Value = serde_json::from_slice(&decrypt::new(&cfg, &change.token).unwrap()).unwrap();
    assert_eq!(value["id"], "id1");
    assert_eq!(value["email"], "a@b");
    assert_eq!(value["password"], "brand-new1");
    assert!(password_matches(&cfg, &change.sealed_password, "brand-new1").unwrap());
    assert!(!password_matches(&cfg, &change.sealed_password, "current1").unwrap());
    assert_eq!(apply(&cfg, Some(row), &s("wrong"), &s("brand-new1")).unwrap_err().message, "Incorrect current password.");
    assert_eq!(apply(&cfg, None, &s("current1"), &s("brand-new1")).unwrap_err().message, "User not found.");
}

#[test]
fn favorite_add_updates_existing() {
    match plan_favorite_add(Some(s("fav1")), Some(s("u1"))).unwrap() {
        FavoriteWrite::Update { favorite_id } => assert_eq!(favorite_id, "fav1"),
        other => panic!("unexpected {:?}", other),
    }
}

#[test]
fn favorite_add_inserts_for_owner() {
    match plan_favorite_add(None, Some(s("u1"))).unwrap() {
        FavoriteWrite::Insert { favorite_id, user_id } => {
            assert_eq!(user_id, "u1");
            assert_eq!(favorite_id.len(), 32);
            assert!(favorite_id.chars().all(|c| c.is_ascii_digit() || ('a'..='f').contains(&c)));
        }
        other => panic!("unexpected {:?}", other),
    }
}

#[test]
fn favorite_add_without_owner_fails() {
    let e = plan_favorite_add(None, None).unwrap_err();
    assert_eq!(e.status, 500);
    assert_eq!(e.message, "Authentication failed.");
}

#[test]
fn empty_tags_threshold_is_thirty_days_back() {
    assert_eq!(empty_tags_threshold(1_700_000_000_000), 1_700_000_000_000 - 2_592_000_000);
    assert_eq!(empty_tags_threshold(0), -2_592_000_000);
    assert_eq!(EMPTY_TAGS_KEEP_MILLIS, 30 * 24 * 60 * 60 * 1000);
}

#[test]
fn password_change_decided_whole() {
    let cfg = config();
    let stored = encrypt::new(&cfg, b"current1").unwrap();
    let row = (stored, s("id1"), s("a@b"));
    let e = change_new(&cfg, Some(row.clone()), &s("current1"), &s("short")).unwrap_err();
    assert_eq!(e.message, "Password too short.");
    let e = change_new(&cfg, None, &s("current1"), &s("current1")).unwrap_err();
    assert_eq!(e.message, "Current and new password cannot be the same.");
    let e = change_new(&cfg, None, &s("current1"), &s("brand-new1")).unwrap_err();
    assert_eq!(e.message, "User not found.");
    let change = change_new(&cfg, Some(row), &s("current1"), &s("brand-new1")).unwrap();
    assert_eq!(change.user_id, "id1");
    assert!(password_matches(&cfg, &change.sealed_password, "brand-new1").unwrap());
}

#[test]
fn credentials_text_length_within_bound() {
    let (id, email, password) = ("\u{1}\u{1f}", "", "\"\\\n");
    let text = credentials_json(id, email, password).unwrap();
    let chars = text.chars().count();
    let bound = 110 + 6 * (id.chars().count() + email.chars().count() + password.chars().count());
    assert!(2 <= chars && chars <= bound);
    let value: serde_json::Value = serde_json::from_str(&text).unwrap();
    assert_eq!(value["id"], id);
    assert_eq!(value["password"], password);
}

#[test]
fn issue_succeeds_with_usable_secret() {
    let cfg = config();
    assert_eq!(cfg.secret.len(), 32);
    assert!(issue_user_secrets(&cfg, "", "", "p").is_ok());
}
