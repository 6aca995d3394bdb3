pub mod verify;
