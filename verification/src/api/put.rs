//! `PUT` requests: changing accounts.

use vstd::prelude::*;
use crate::models::{User, UserNameID, UsernamePassword};
use crate::status::{api_error, ApiError, Status};
use crate::text::same_text;

verus! {

/// Changing a password: anyone may change their own, only account managers those of
/// others (`403 You don't have the permissions to change the password of other users`).
pub fn update_password(requester: &User, request: &UsernamePassword) -> (r: Result<(), ApiError>)
    ensures
        requester.permissions.manage_users || request.username@ == requester.username@ ==> r is Ok,
        !requester.permissions.manage_users && request.username@ != requester.username@ ==> (r matches Err(
            e,
        ) && e.status == Status::Forbidden && e.message@
            == "You don't have the permissions to change the password of other users"@),
{
    if !same_text(request.username.as_str(), requester.username.as_str())
        && !requester.permissions.manage_users {
        return Err(
            api_error(
                Status::Forbidden,
                "You don't have the permissions to change the password of other users",
            ),
        );
    }
    Ok(())
}

/// Changing an account's rights needs the right to manage accounts; the refusal is `403
/// You don't have the permissions to change user permissions`.
pub fn update_user_permissions(requester: &User) -> (r: Result<(), ApiError>)
    ensures
        requester.permissions.manage_users ==> r is Ok,
        !requester.permissions.manage_users ==> (r matches Err(e) && e.status == Status::Forbidden
            && e.message@ == "You don't have the permissions to change user permissions"@),
{
    if requester.permissions.manage_users {
        Ok(())
    } else {
        Err(api_error(Status::Forbidden, "You don't have the permissions to change user permissions"))
    }
}

/// Renaming an account: anyone may rename their own, only account managers others (`403
/// You don't have the permissions to change the username of other users`).
pub fn update_username(requester: &User, request: &UserNameID) -> (r: Result<(), ApiError>)
    ensures
        requester.permissions.manage_users || request.id == requester.id ==> r is Ok,
        !requester.permissions.manage_users && request.id != requester.id ==> (r matches Err(e)
            && e.status == Status::Forbidden && e.message@
            == "You don't have the permissions to change the username of other users"@),
{
    if request.id != requester.id && !requester.permissions.manage_users {
        return Err(
            api_error(
                Status::Forbidden,
                "You don't have the permissions to change the username of other users",
            ),
        );
    }
    Ok(())
}

} // verus!
