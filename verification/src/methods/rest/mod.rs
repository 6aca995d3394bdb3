pub mod admin;
pub mod paging;
pub mod user;
