//! Adding a favorite: an existing favorite of the same title is updated,
//! otherwise a new one is inserted for the user that the token belongs to.
use vstd::prelude::*;

use crate::models::error::{fails_with, ErrorResponse};
use crate::utils::ids::{is_record_id, new_record_id};

verus! {

/// The write that adding a favorite makes.
#[derive(Debug)]
pub enum FavoriteWrite {
    /// Update the favorite with this id (its tags, position and timestamp).
    Update { favorite_id: String },
    /// Insert a new favorite with this id for this user.
    Insert { favorite_id: String, user_id: String },
}

/// What adding a favorite decides, from the id of the user's favorite of the
/// same title (`existing`) and the id of the user that the token belongs to
/// (`owner`, looked up only when there is no such favorite).
pub open spec fn planned_add(
    existing: Option<String>,
    owner: Option<String>,
    r: Result<FavoriteWrite, ErrorResponse>,
) -> bool {
    match existing {
        Some(id) => match r {
            Ok(FavoriteWrite::Update { favorite_id }) => favorite_id == id,
            _ => false,
        },
        None => match owner {
            Some(user) => match r {
                Ok(FavoriteWrite::Insert { favorite_id, user_id }) => user_id == user && is_record_id(favorite_id@),
                _ => false,
            },
            None => fails_with(r, "Authentication failed."@),
        },
    }
}

/// A favorite of the same title is updated, whatever the owner lookup gave (it
/// is not made when there is one): the decision is the update of that favorite,
/// for every owner, `None` included.
pub proof fn lemma_existing_favorite_updated(id: String, owner: Option<String>, r: Result<FavoriteWrite, ErrorResponse>)
    requires
        planned_add(Some(id), owner, r),
    ensures
        r == Ok::<FavoriteWrite, ErrorResponse>(FavoriteWrite::Update { favorite_id: id }),
{
}

/// With no favorite of the same title, the decision does not depend on the
/// existing side: a found owner gets a new favorite under a fresh record id, a
/// missing one fails with "Authentication failed.".
pub proof fn lemma_new_favorite_for_owner(owner: Option<String>, r: Result<FavoriteWrite, ErrorResponse>)
    requires
        planned_add(None, owner, r),
    ensures
        owner matches Some(user) ==> (r matches Ok(FavoriteWrite::Insert { favorite_id, user_id }) && user_id == user
            && favorite_id@.len() == 32),
        owner is None ==> (r matches Err(e) && e.status == 500 && e.message@ == "Authentication failed."@),
{
}

/// Decides the write of adding a favorite: update the existing favorite if
/// there is one; else insert a new one, under a fresh record id, for the token's
/// user; with no such user, "Authentication failed." (status 500).
pub fn plan_favorite_add(existing: Option<String>, owner: Option<String>) -> (r: Result<FavoriteWrite, ErrorResponse>)
    ensures
        planned_add(existing, owner, r),
        existing matches Some(id) ==> r == Ok::<FavoriteWrite, ErrorResponse>(
            FavoriteWrite::Update { favorite_id: id },
        ),
        existing is None && owner is Some ==> (r matches Ok(FavoriteWrite::Insert { favorite_id, user_id }) && Some(
            user_id,
        ) == owner),
{
    match existing {
        Some(favorite_id) => Ok(FavoriteWrite::Update { favorite_id }),
        None => match owner {
            Some(user_id) => Ok(FavoriteWrite::Insert { favorite_id: new_record_id(), user_id }),
            None => Err(ErrorResponse::internal(String::from_str("Authentication failed."))),
        },
    }
}

} // verus!
