//! The error answer of the HTTP API.
use vstd::prelude::*;

verus! {

/// An HTTP status and a message for the client.
#[derive(Debug)]
pub struct ErrorResponse {
    pub status: u16,
    pub message: String,
}

/// The result is an internal error (status 500) with this message.
pub open spec fn fails_with<T>(r: Result<T, ErrorResponse>, message: Seq<char>) -> bool {
    match r {
        Err(e) => e.status == 500 && e.message@ == message,
        Ok(_) => false,
    }
}

impl ErrorResponse {
    /// An internal-error answer (status 500) with `message`.
    pub fn internal(message: String) -> (r: ErrorResponse)
        ensures
            r.status == 500,
            r.message == message,
    {
        ErrorResponse { status: 500, message }
    }

    /// The text the error displays as: its message.
    pub fn to_text(&self) -> (r: String)
        ensures
            r@ == self.message@,
    {
        self.message.clone()
    }
}

} // verus!
