pub mod login;
