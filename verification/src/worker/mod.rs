pub mod favorite;
