//! `POST` requests: creating accounts.

use vstd::prelude::*;
use crate::models::{CreateUserDB, User};
use crate::password::{bcrypt_hash, bcrypt_verify_result};
use crate::status::{api_error, ApiError, Status};

verus! {

/// Creating an account needs the right to manage accounts; the refusal is `403 You don't
/// have the permissions to create a user`.
pub fn create_user(requester: &User) -> (r: Result<(), ApiError>)
    ensures
        requester.permissions.manage_users ==> r is Ok,
        !requester.permissions.manage_users ==> (r matches Err(e) && e.status == Status::Forbidden
            && e.message@ == "You don't have the permissions to create a user"@),
{
    if requester.permissions.manage_users {
        Ok(())
    } else {
        Err(api_error(Status::Forbidden, "You don't have the permissions to create a user"))
    }
}

/// The account to store for a creation request: the same, with the password replaced by
/// its hash; `None` when no hash could be made (the server stops there).
pub fn new_account(request: CreateUserDB) -> (r: Option<CreateUserDB>)
    ensures
        r matches Some(a) ==> {
            &&& a.username == request.username
            &&& a.terminate == request.terminate
            &&& a.permissions == request.permissions
            &&& a.password@.len() == 60
            &&& bcrypt_verify_result(request.password@, a.password@) == Ok::<bool, Seq<char>>(true)
        },
{
    match bcrypt_hash(request.password.as_str()) {
        Some(h) => Some(
            CreateUserDB {
                username: request.username,
                password: h,
                terminate: request.terminate,
                permissions: request.permissions,
            },
        ),
        None => None,
    }
}

} // verus!
