pub mod cipher;
pub mod clock;
pub mod credentials;
pub mod decrypt;
pub mod encrypt;
pub mod ids;
pub mod password;
