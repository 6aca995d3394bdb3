pub mod watch_state;
