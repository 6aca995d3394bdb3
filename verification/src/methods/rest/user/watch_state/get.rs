//! Reading back a playback position.
use vstd::prelude::*;

use crate::models::error::ErrorResponse;

verus! {

/// The answer to a position request, from the row found for the user's episode
/// (the bit pattern of its `f64` position, and its stored timestamp): the
/// position with the timestamp read as `usize`, or "Watch state not found."
/// with status 404 when there is no row.
pub fn answer(found: Option<(u64, i64)>) -> (r: Result<(u64, usize), ErrorResponse>)
    ensures
        match found {
            Some(row) => r == Ok::<(u64, usize), ErrorResponse>((row.0, row.1 as usize)),
            None => (r matches Err(e) && e.status == 404 && e.message@ == "Watch state not found."@),
        },
{
    match found {
        Some((current_time, timestamp)) => Ok((current_time, timestamp as usize)),
        None => Err(ErrorResponse { status: 404, message: String::from_str("Watch state not found.") }),
    }
}

} // verus!
