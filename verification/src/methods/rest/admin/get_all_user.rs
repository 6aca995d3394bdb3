//! Listing users for the admin.
use vstd::prelude::*;

verus! {

/// Users a page.
pub const LIMIT: usize = 20;

/// A user as the listing shows it.
pub struct User {
    pub id: String,
    pub email: String,
    pub username: String,
    pub status: bool,
    pub timestamp: usize,
}

impl User {
    /// A user from a selected row (id, email, username, timestamp, status); the
    /// stored `i64` timestamp is read as `usize`.
    pub fn from_row(row: (String, String, String, i64, bool)) -> (r: User)
        ensures
            r.id == row.0,
            r.email == row.1,
            r.username == row.2,
            r.timestamp == row.3 as usize,
            r.status == row.4,
    {
        User { id: row.0, email: row.1, username: row.2, timestamp: row.3 as usize, status: row.4 }
    }
}

} // verus!
