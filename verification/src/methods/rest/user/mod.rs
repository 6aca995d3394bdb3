pub mod change_password;
pub mod favorite;
pub mod watch_state;
