pub mod add;
pub mod get;
