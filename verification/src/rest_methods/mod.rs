pub mod admin;
pub mod user;
