//! `GET` requests: file listings and accounts.

use vstd::prelude::*;
use crate::models::User;
use crate::status::{api_error, ApiError, Status};
use crate::text::same_text;

verus! {

/// Listing all files needs the right to list files; the refusal is `403 You don't have
/// permission to fetch this resource`.
pub fn admin_files(user: &User) -> (r: Result<(), ApiError>)
    ensures
        user.permissions.list_files ==> r is Ok,
        !user.permissions.list_files ==> (r matches Err(e) && e.status == Status::Forbidden
            && e.message@ == "You don't have permission to fetch this resource"@),
{
    if user.permissions.list_files {
        Ok(())
    } else {
        Err(api_error(Status::Forbidden, "You don't have permission to fetch this resource"))
    }
}

/// Looking at an account: anyone may look at their own, only account managers at others
/// (`403 You don't have the permissions to get information about other users`).
pub fn user(requester: &User, username: &str) -> (r: Result<(), ApiError>)
    ensures
        requester.permissions.manage_users || username@ == requester.username@ ==> r is Ok,
        !requester.permissions.manage_users && username@ != requester.username@ ==> (r matches Err(
            e,
        ) && e.status == Status::Forbidden && e.message@
            == "You don't have the permissions to get information about other users"@),
{
    if !same_text(username, requester.username.as_str()) && !requester.permissions.manage_users {
        return Err(
            api_error(
                Status::Forbidden,
                "You don't have the permissions to get information about other users",
            ),
        );
    }
    Ok(())
}

/// Listing all accounts needs the right to manage accounts; the refusal is `403 You
/// don't have permission to fetch this resource`.
pub fn users(requester: &User) -> (r: Result<(), ApiError>)
    ensures
        requester.permissions.manage_users ==> r is Ok,
        !requester.permissions.manage_users ==> (r matches Err(e) && e.status == Status::Forbidden
            && e.message@ == "You don't have permission to fetch this resource"@),
{
    if requester.permissions.manage_users {
        Ok(())
    } else {
        Err(api_error(Status::Forbidden, "You don't have permission to fetch this resource"))
    }
}

} // verus!
