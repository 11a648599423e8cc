//! `DELETE` requests: files and accounts.

use vstd::prelude::*;
use crate::models::{File, User};
use crate::status::{api_error, ApiError, Status};
use crate::text::{parse_i64, parsed_integer};

verus! {

/// Deleting any file needs the right to delete files; the refusal is `403 You don't have
/// permission to fetch this resource`.
pub fn admin_files(user: &User) -> (r: Result<(), ApiError>)
    ensures
        user.permissions.delete_files ==> r is Ok,
        !user.permissions.delete_files ==> (r matches Err(e) && e.status == Status::Forbidden
            && e.message@ == "You don't have permission to fetch this resource"@),
{
    if user.permissions.delete_files {
        Ok(())
    } else {
        Err(api_error(Status::Forbidden, "You don't have permission to fetch this resource"))
    }
}

/// Deleting one's own file: allowed only to the account that uploaded `file`; others get
/// `403 You don't have permission to delete this resource`.
pub fn own_files(user: &User, file: &File) -> (r: Result<(), ApiError>)
    ensures
        user.id == file.user_id ==> r is Ok,
        user.id != file.user_id ==> (r matches Err(e) && e.status == Status::Forbidden
            && e.message@ == "You don't have permission to delete this resource"@),
{
    if user.id == file.user_id {
        Ok(())
    } else {
        Err(api_error(Status::Forbidden, "You don't have permission to delete this resource"))
    }
}

/// The account id named in the path: the number it holds, or `0` when it holds none.
pub open spec fn requested_id(text: Seq<char>) -> int {
    match parsed_integer(text) {
        Some(v) => if i64::MIN <= v <= i64::MAX {
            v
        } else {
            0
        },
        None => 0,
    }
}

/// Deleting an account: anyone may delete their own, and only account managers may
/// delete others (`403 You don't have the permissions to delete other users`). Answers
/// the id of the account to delete.
pub fn user(requester: &User, id_text: &str) -> (r: Result<i64, ApiError>)
    ensures
        requester.permissions.manage_users || requested_id(id_text@) == requester.id ==> (r matches Ok(
            id,
        ) && id == requested_id(id_text@)),
        !requester.permissions.manage_users && requested_id(id_text@) != requester.id ==> (r matches Err(
            e,
        ) && e.status == Status::Forbidden && e.message@
            == "You don't have the permissions to delete other users"@),
{
    let id: i64 = match parse_i64(id_text) {
        Some(v) => v,
        None => 0,
    };
    if id != requester.id && !requester.permissions.manage_users {
        return Err(api_error(Status::Forbidden, "You don't have the permissions to delete other users"));
    }
    Ok(id)
}

} // verus!
