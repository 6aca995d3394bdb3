pub mod get_all_user;
pub mod login;
pub mod verify;

use vstd::prelude::*;

use crate::models::error::ErrorResponse;

verus! {

/// The admin gate of the user-management endpoints: only a request whose
/// `authorization` header held a valid admin token passes.
pub fn require_admin(admin_token_verified: bool) -> (r: Result<(), ErrorResponse>)
    ensures
        r is Ok <==> admin_token_verified,
        r matches Err(e) ==> e.status == 500 && e.message@ == "Invalid admin token."@,
{
    if !admin_token_verified {
        return Err(ErrorResponse::internal(String::from_str("Invalid admin token.")));
    }
    Ok(())
}

} // verus!
