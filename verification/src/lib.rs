pub mod collections;
pub mod configs;
pub mod methods;
pub mod middleware;
pub mod models;
pub mod rest_methods;
pub mod utils;
pub mod worker;
