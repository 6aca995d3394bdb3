pub mod auth_user;
