pub mod auth_user;
pub mod error;
pub mod watch_state;
