pub mod rest;
pub mod socket;
