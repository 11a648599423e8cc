//! What the database steps answer: how the result of each query or statement becomes
//! a record, a success or a refusal.

use vstd::prelude::*;
use crate::models::{File, FileListing, User, UserDB, users_from_rows};
use crate::permissions::PermissionsDB;
use crate::status::{api_error, reply, ApiError, Reply, Status};
use crate::text::{decimal_i64, decimal_text, join2};

verus! {

/// The refusal for a file that is not there.
pub open spec fn file_not_found() -> (Status, Seq<char>) {
    (Status::NotFound, "File not found"@)
}

/// The file that the lookup by stored name found, or `404 File not found`.
pub fn get_file_from_db(row: Option<File>) -> (r: Result<File, ApiError>)
    ensures
        match row {
            Some(f) => r matches Ok(g) && g == f,
            None => r matches Err(e) && (e.status, e.message@) == file_not_found(),
        },
{
    match row {
        Some(f) => Ok(f),
        None => Err(api_error(Status::NotFound, "File not found")),
    }
}

/// The files that a listing query returned, or `404 File not found: <error>`.
pub fn get_all_files_from_db(rows: Result<Vec<File>, String>) -> (r: Result<Vec<File>, ApiError>)
    ensures
        match rows {
            Ok(files) => r matches Ok(v) && v == files,
            Err(m) => r matches Err(e) && e.status == Status::NotFound && e.message@
                == "File not found: "@ + m@,
        },
{
    match rows {
        Ok(files) => Ok(files),
        Err(m) => Err(ApiError { status: Status::NotFound, message: join2("File not found: ", m.as_str()) }),
    }
}

/// The files of one account that the query returned, or `404 File not found: <error>`.
pub fn get_own_files_from_db(rows: Result<Vec<File>, String>) -> (r: Result<Vec<File>, ApiError>)
    ensures
        match rows {
            Ok(files) => r matches Ok(v) && v == files,
            Err(m) => r matches Err(e) && e.status == Status::NotFound && e.message@
                == "File not found: "@ + m@,
        },
{
    get_all_files_from_db(rows)
}

/// The public listing of the files, in the same order.
pub fn get_files_from_db(files: Vec<File>) -> (l: Vec<FileListing>)
    ensures
        l.len() == files.len(),
        forall|i: int|
            0 <= i < files.len() ==> {
                &&& (#[trigger] l[i]).file_name == files[i].file_name
                &&& l[i].file_type == files[i].file_type
                &&& l[i].destroy == files[i].destroy
                &&& l[i].password_protected == files[i].password is Some
            },
{
    let ghost files0 = files@;
    let n = files.len();
    let mut files = files;
    let mut reversed: Vec<FileListing> = Vec::new();
    let mut k: usize = 0;
    while k < n
        invariant
            files0.len() == n,
            k <= n,
            files@ == files0.take(n - k),
            reversed.len() == k,
            forall|j: int|
                0 <= j < k ==> {
                    &&& (#[trigger] reversed[j]).file_name == files0[n - 1 - j].file_name
                    &&& reversed[j].file_type == files0[n - 1 - j].file_type
                    &&& reversed[j].destroy == files0[n - 1 - j].destroy
                    &&& reversed[j].password_protected == files0[n - 1 - j].password is Some
                },
        decreases n - k,
    {
        let f = files.pop().unwrap();
        proof {
            assert(files0.take(n - k).drop_last() =~= files0.take(n - k - 1));
        }
        reversed.push(f.listing());
        k += 1;
    }
    let mut l: Vec<FileListing> = Vec::new();
    let mut m: usize = 0;
    while m < n
        invariant
            files0.len() == n,
            m <= n,
            reversed.len() == n - m,
            l.len() == m,
            forall|j: int|
                0 <= j < n - m ==> {
                    &&& (#[trigger] reversed[j]).file_name == files0[n - 1 - j].file_name
                    &&& reversed[j].file_type == files0[n - 1 - j].file_type
                    &&& reversed[j].destroy == files0[n - 1 - j].destroy
                    &&& reversed[j].password_protected == files0[n - 1 - j].password is Some
                },
            forall|j: int|
                0 <= j < m ==> {
                    &&& (#[trigger] l[j]).file_name == files0[j].file_name
                    &&& l[j].file_type == files0[j].file_type
                    &&& l[j].destroy == files0[j].destroy
                    &&& l[j].password_protected == files0[j].password is Some
                },
        decreases n - m,
    {
        let f = reversed.pop().unwrap();
        l.push(f);
        m += 1;
    }
    l
}

/// How removing a stored file from the disk went.
#[derive(Clone, Copy, Debug, PartialEq, Eq, Structural)]
pub enum RemoveOutcome {
    Removed,
    /// The file was already gone.
    Missing,
    Failed,
}

/// The first step of deleting a file: a file already gone from the disk is fine, any
/// other failure is `500 Couldn't delete`.
pub fn delete_file(removal: RemoveOutcome) -> (r: Result<(), ApiError>)
    ensures
        removal != RemoveOutcome::Failed ==> r is Ok,
        removal == RemoveOutcome::Failed ==> (r matches Err(e) && e.status
            == Status::InternalServerError && e.message@ == "Couldn't delete"@),
{
    match removal {
        RemoveOutcome::Failed => Err(api_error(Status::InternalServerError, "Couldn't delete")),
        _ => Ok(()),
    }
}

/// The second step of deleting a file: removing its record answers `200 Deleted file`, or
/// `500 Couldn't remove from database`.
pub fn delete_file_record(removed: bool) -> (r: Result<Reply, ApiError>)
    ensures
        removed ==> (r matches Ok(p) && p.status == Status::Success && p.body@ == "Deleted file"@),
        !removed ==> (r matches Err(e) && e.status == Status::InternalServerError && e.message@
            == "Couldn't remove from database"@),
{
    if removed {
        Ok(reply(Status::Success, "Deleted file"))
    } else {
        Err(api_error(Status::InternalServerError, "Couldn't remove from database"))
    }
}

/// Deleting an account, given how many rows the statement changed (`None` when it
/// failed). The statement removes the rights row and the account row, so fewer than two
/// changed rows mean there was no such account.
pub fn delete_user_db(rows_affected: Option<u64>, id: i64) -> (r: Result<Reply, ApiError>)
    ensures
        match rows_affected {
            None => r matches Err(e) && e.status == Status::InternalServerError && e.message@
                == "Couldn't remove from database"@,
            Some(n) => if n <= 1 {
                r matches Err(e) && e.status == Status::NotFound && e.message@
                    == "User does not exist"@
            } else {
                r matches Ok(p) && p.status == Status::Success && p.body@ == "Deleted user: "@
                    + decimal_text(id as int)
            },
        },
{
    match rows_affected {
        None => Err(api_error(Status::InternalServerError, "Couldn't remove from database")),
        Some(n) => {
            if n <= 1 {
                Err(api_error(Status::NotFound, "User does not exist"))
            } else {
                let number = decimal_i64(id);
                Ok(Reply { status: Status::Success, body: join2("Deleted user: ", number.as_str()) })
            }
        },
    }
}

/// An update of an account, given how many rows it changed (`None` when it failed):
/// `500 Couldn't edit user`, `404 User does not exist` when at most one row changed, or
/// `200` with `done`.
fn account_update(rows_affected: Option<u64>, done: &str) -> (r: Result<Reply, ApiError>)
    ensures
        match rows_affected {
            None => r matches Err(e) && e.status == Status::InternalServerError && e.message@
                == "Couldn't edit user"@,
            Some(n) => if n <= 1 {
                r matches Err(e) && e.status == Status::NotFound && e.message@
                    == "User does not exist"@
            } else {
                r matches Ok(p) && p.status == Status::Success && p.body@ == done@
            },
        },
{
    match rows_affected {
        None => Err(api_error(Status::InternalServerError, "Couldn't edit user")),
        Some(n) => {
            if n <= 1 {
                Err(api_error(Status::NotFound, "User does not exist"))
            } else {
                Ok(reply(Status::Success, done))
            }
        },
    }
}

/// Changing a password, given how many rows the statement changed.
pub fn edit_user_password(rows_affected: Option<u64>) -> (r: Result<Reply, ApiError>)
    ensures
        match rows_affected {
            None => r matches Err(e) && e.status == Status::InternalServerError && e.message@
                == "Couldn't edit user"@,
            Some(n) => if n <= 1 {
                r matches Err(e) && e.status == Status::NotFound && e.message@
                    == "User does not exist"@
            } else {
                r matches Ok(p) && p.status == Status::Success && p.body@ == "Updated password"@
            },
        },
{
    account_update(rows_affected, "Updated password")
}

/// Renaming an account, given how many rows the statement changed.
pub fn edit_user_username(rows_affected: Option<u64>) -> (r: Result<Reply, ApiError>)
    ensures
        match rows_affected {
            None => r matches Err(e) && e.status == Status::InternalServerError && e.message@
                == "Couldn't edit user"@,
            Some(n) => if n <= 1 {
                r matches Err(e) && e.status == Status::NotFound && e.message@
                    == "User does not exist"@
            } else {
                r matches Ok(p) && p.status == Status::Success && p.body@ == "Updated username"@
            },
        },
{
    account_update(rows_affected, "Updated username")
}

/// Changing an account's rights, given how many rows the statement changed.
pub fn edit_user_permissions(rows_affected: Option<u64>) -> (r: Result<Reply, ApiError>)
    ensures
        match rows_affected {
            None => r matches Err(e) && e.status == Status::InternalServerError && e.message@
                == "Couldn't edit user"@,
            Some(n) => if n <= 1 {
                r matches Err(e) && e.status == Status::NotFound && e.message@
                    == "User does not exist"@
            } else {
                r matches Ok(p) && p.status == Status::Success && p.body@
                    == "Updated user permissions"@
            },
        },
{
    account_update(rows_affected, "Updated user permissions")
}

/// Editing an account from the account page: `200 Created user` once the statement ran,
/// `500 Couldn't edit user` when it failed.
pub fn edit_user_db(ran: bool) -> (r: Result<Reply, ApiError>)
    ensures
        ran ==> (r matches Ok(p) && p.status == Status::Success && p.body@ == "Created user"@),
        !ran ==> (r matches Err(e) && e.status == Status::InternalServerError && e.message@
            == "Couldn't edit user"@),
{
    if ran {
        Ok(reply(Status::Success, "Created user"))
    } else {
        Err(api_error(Status::InternalServerError, "Couldn't edit user"))
    }
}

/// Creating an account, given the error of the insert if it failed: `500 Couldn't
/// create user, <error>`.
pub fn create_user_db(insert_error: Option<String>) -> (r: Result<(), ApiError>)
    ensures
        match insert_error {
            None => r is Ok,
            Some(m) => r matches Err(e) && e.status == Status::InternalServerError && e.message@
                == "Couldn't create user, "@ + m@,
        },
{
    match insert_error {
        None => Ok(()),
        Some(m) => Err(
            ApiError {
                status: Status::InternalServerError,
                message: join2("Couldn't create user, ", m.as_str()),
            },
        ),
    }
}

/// The account just created, as the lookup by name found it; a failed lookup keeps its
/// status.
pub fn created_user(lookup: Result<User, Status>) -> (r: Result<User, ApiError>)
    ensures
        match lookup {
            Ok(u) => r matches Ok(v) && v == u,
            Err(s) => r matches Err(e) && e.status == s && e.message@
                == "Somehow we can't find the user you just created?"@,
        },
{
    match lookup {
        Ok(u) => Ok(u),
        Err(s) => Err(api_error(s, "Somehow we can't find the user you just created?")),
    }
}

/// The account found by name, with no rights when it has no rights row; `404` when there
/// is no such account.
pub fn get_user_by_username(user: Option<UserDB>, permissions: Option<PermissionsDB>) -> (r: Result<
    User,
    Status,
>)
    ensures
        match user {
            Some(row) => r matches Ok(u) && u == User::from_rows_spec(row, permissions),
            None => r == Err::<User, Status>(Status::NotFound),
        },
{
    match user {
        Some(row) => Ok(User::from_rows(row, permissions)),
        None => Err(Status::NotFound),
    }
}

/// The account found by name for the profile pages, with no rights when it has no rights
/// row; `500 Cannot find a user by that username` when there is no such account.
pub fn get_user_from_db(user: Option<UserDB>, permissions: Option<PermissionsDB>) -> (r: Result<
    User,
    ApiError,
>)
    ensures
        match user {
            Some(row) => r matches Ok(u) && u == User::from_rows_spec(row, permissions),
            None => r matches Err(e) && e.status == Status::InternalServerError && e.message@
                == "Cannot find a user by that username"@,
        },
{
    match user {
        Some(row) => Ok(User::from_rows(row, permissions)),
        None => Err(api_error(Status::InternalServerError, "Cannot find a user by that username")),
    }
}

/// All accounts with their rights (paired with the users by position), or `404 File not
/// found: <error>` when the users query failed.
pub fn get_users_from_db(
    rows: Result<Vec<UserDB>, String>,
    permissions: Vec<Option<PermissionsDB>>,
) -> (r: Result<Vec<User>, ApiError>)
    requires
        rows matches Ok(v) ==> v.len() == permissions.len(),
    ensures
        match rows {
            Ok(v) => r matches Ok(users) && users.len() == v.len() && forall|i: int|
                0 <= i < v.len() ==> #[trigger] users[i] == User::from_rows_spec(v[i], permissions[i]),
            Err(m) => r matches Err(e) && e.status == Status::NotFound && e.message@
                == "File not found: "@ + m@,
        },
{
    match rows {
        Ok(v) => Ok(users_from_rows(v, permissions)),
        Err(m) => Err(ApiError { status: Status::NotFound, message: join2("File not found: ", m.as_str()) }),
    }
}

} // verus!
