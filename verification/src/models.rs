//! The records that the server keeps and hands out. Points in time are Unix
//! timestamps in seconds (UTC), which is how the database's date-times are read.

use vstd::prelude::*;
use crate::permissions::{Permissions, PermissionsDB};

verus! {

/// A row of the users table.
#[derive(Clone, Debug)]
pub struct UserDB {
    pub id: i64,
    pub username: String,
    pub password: String,
    pub terminate: Option<i64>,
}

/// An account together with its rights.
#[derive(Clone, Debug)]
pub struct User {
    pub id: i64,
    pub username: String,
    pub password: String,
    pub terminate: Option<i64>,
    pub permissions: Permissions,
}

/// What is needed to create an account.
#[derive(Clone, Debug)]
pub struct CreateUserDB {
    pub username: String,
    pub password: String,
    pub terminate: Option<i64>,
    pub permissions: Permissions,
}

/// An account as it is shown to clients: everything but the password hash.
#[derive(Clone, Debug)]
pub struct UserWithoutPassword {
    pub id: i64,
    pub username: String,
    pub terminate: Option<i64>,
    pub permissions: Permissions,
}

/// A change of an account's rights and termination date.
#[derive(Clone, Debug)]
pub struct UserPermissions {
    pub id: i64,
    pub terminate: Option<i64>,
    pub permissions: Permissions,
}

/// An account id and a password.
#[derive(Clone, Debug)]
pub struct UserIdPassword {
    pub id: i64,
    pub password: String,
}

/// An account id and a user name.
#[derive(Clone, Debug)]
pub struct UserNameID {
    pub id: i64,
    pub username: String,
}

/// A request to change the password of the named account.
#[derive(Clone, Debug)]
pub struct UsernamePassword {
    pub id: i64,
    pub username: String,
    pub password: String,
}

/// A row of the files table.
#[derive(Clone, Debug)]
pub struct FileDB {
    pub saved_name: String,
    pub file_name: String,
    pub file_type: String,
    pub destroy: Option<i64>,
    pub password: Option<String>,
    pub user_id: i64,
    pub created_at: Option<i64>,
}

/// A stored file together with the name of the account that uploaded it.
#[derive(Clone, Debug)]
pub struct File {
    pub saved_name: String,
    pub file_name: String,
    pub file_type: String,
    pub destroy: Option<i64>,
    pub password: Option<String>,
    pub username: String,
    pub user_id: i64,
    pub created_at: Option<i64>,
}

/// A file as the public file listing shows it.
#[derive(Clone, Debug)]
pub struct FileListing {
    pub file_name: String,
    pub file_type: String,
    pub destroy: Option<i64>,
    pub password_protected: bool,
}

/// The body of a request that names a file to delete.
#[derive(Clone, Debug)]
pub struct FileToDelete {
    pub filename: String,
}

/// The body of a request that names an account to look at.
#[derive(Clone, Debug)]
pub struct UserToGet {
    pub username: String,
}

impl User {
    /// The account that a users-table row and its (possibly missing) permissions row
    /// describe; a missing permissions row means no rights.
    pub open spec fn from_rows_spec(row: UserDB, permissions: Option<PermissionsDB>) -> User {
        User {
            id: row.id,
            username: row.username,
            password: row.password,
            terminate: row.terminate,
            permissions: match permissions {
                Some(r) => Permissions {
                    manage_users: r.manage_users,
                    upload_files: r.upload_files,
                    list_files: r.list_files,
                    delete_files: r.delete_files,
                },
                None => Permissions::spec_none(),
            },
        }
    }

    /// The account that a users-table row and its permissions row describe.
    pub fn from_rows(row: UserDB, permissions: Option<PermissionsDB>) -> (u: User)
        ensures
            u == User::from_rows_spec(row, permissions),
    {
        User {
            id: row.id,
            username: row.username,
            password: row.password,
            terminate: row.terminate,
            permissions: Permissions::from_row(permissions),
        }
    }

    /// The account without its password hash.
    pub fn without_password(self) -> (v: UserWithoutPassword)
        ensures
            v.id == self.id,
            v.username == self.username,
            v.terminate == self.terminate,
            v.permissions == self.permissions,
    {
        UserWithoutPassword {
            id: self.id,
            username: self.username,
            terminate: self.terminate,
            permissions: self.permissions,
        }
    }
}

impl File {
    /// The entry of the public listing for this file: its password is only told as
    /// whether there is one.
    pub fn listing(self) -> (l: FileListing)
        ensures
            l.file_name == self.file_name,
            l.file_type == self.file_type,
            l.destroy == self.destroy,
            l.password_protected == self.password is Some,
    {
        let protected = self.password.is_some();
        FileListing {
            file_name: self.file_name,
            file_type: self.file_type,
            destroy: self.destroy,
            password_protected: protected,
        }
    }
}

/// The accounts that the user rows and their permission rows describe, in order
/// (the rows are paired up by position).
pub fn users_from_rows(rows: Vec<UserDB>, permissions: Vec<Option<PermissionsDB>>) -> (users: Vec<User>)
    requires
        rows.len() == permissions.len(),
    ensures
        users.len() == rows.len(),
        forall|i: int|
            0 <= i < rows.len() ==> #[trigger] users[i] == User::from_rows_spec(rows[i], permissions[i]),
{
    let mut users: Vec<User> = Vec::new();
    let mut rows = rows;
    let mut permissions = permissions;
    let ghost rows0 = rows@;
    let ghost perms0 = permissions@;
    let n = rows.len();
    let mut k: usize = 0;
    // Walk from the back so that each row can be moved out with `pop`.
    let mut reversed: Vec<User> = Vec::new();
    while k < n
        invariant
            rows0.len() == n,
            perms0.len() == n,
            k <= n,
            rows@ == rows0.take(n - k),
            permissions@ == perms0.take(n - k),
            reversed.len() == k,
            forall|j: int|
                0 <= j < k ==> #[trigger] reversed[j] == User::from_rows_spec(
                    rows0[n - 1 - j],
                    perms0[n - 1 - j],
                ),
        decreases n - k,
    {
        let row = rows.pop().unwrap();
        let perm = permissions.pop().unwrap();
        reversed.push(User::from_rows(row, perm));
        proof {
            assert(rows0.take(n - k).drop_last() =~= rows0.take(n - k - 1));
            assert(perms0.take(n - k).drop_last() =~= perms0.take(n - k - 1));
        }
        k += 1;
    }
    let mut m: usize = 0;
    while m < n
        invariant
            reversed.len() == n - m,
            m <= n,
            rows0.len() == n,
            perms0.len() == n,
            users.len() == m,
            forall|j: int|
                0 <= j < n - m ==> #[trigger] reversed[j] == User::from_rows_spec(
                    rows0[n - 1 - j],
                    perms0[n - 1 - j],
                ),
            forall|j: int|
                0 <= j < m ==> #[trigger] users[j] == User::from_rows_spec(rows0[j], perms0[j]),
        decreases n - m,
    {
        let u = reversed.pop().unwrap();
        users.push(u);
        m += 1;
    }
    users
}

/// The accounts as they are shown to clients, in the same order.
pub fn users_without_passwords(users: Vec<User>) -> (shown: Vec<UserWithoutPassword>)
    ensures
        shown.len() == users.len(),
        forall|i: int|
            0 <= i < users.len() ==> {
                &&& (#[trigger] shown[i]).id == users[i].id
                &&& shown[i].username == users[i].username
                &&& shown[i].terminate == users[i].terminate
                &&& shown[i].permissions == users[i].permissions
            },
{
    let ghost users0 = users@;
    let n = users.len();
    let mut users = users;
    let mut reversed: Vec<UserWithoutPassword> = Vec::new();
    let mut k: usize = 0;
    while k < n
        invariant
            users0.len() == n,
            k <= n,
            users@ == users0.take(n - k),
            reversed.len() == k,
            forall|j: int|
                0 <= j < k ==> {
                    &&& (#[trigger] reversed[j]).id == users0[n - 1 - j].id
                    &&& reversed[j].username == users0[n - 1 - j].username
                    &&& reversed[j].terminate == users0[n - 1 - j].terminate
                    &&& reversed[j].permissions == users0[n - 1 - j].permissions
                },
        decreases n - k,
    {
        let u = users.pop().unwrap();
        proof {
            assert(users0.take(n - k).drop_last() =~= users0.take(n - k - 1));
        }
        reversed.push(u.without_password());
        k += 1;
    }
    let mut shown: Vec<UserWithoutPassword> = Vec::new();
    let mut m: usize = 0;
    while m < n
        invariant
            users0.len() == n,
            m <= n,
            reversed.len() == n - m,
            shown.len() == m,
            forall|j: int|
                0 <= j < n - m ==> {
                    &&& (#[trigger] reversed[j]).id == users0[n - 1 - j].id
                    &&& reversed[j].username == users0[n - 1 - j].username
                    &&& reversed[j].terminate == users0[n - 1 - j].terminate
                    &&& reversed[j].permissions == users0[n - 1 - j].permissions
                },
            forall|j: int|
                0 <= j < m ==> {
                    &&& (#[trigger] shown[j]).id == users0[j].id
                    &&& shown[j].username == users0[j].username
                    &&& shown[j].terminate == users0[j].terminate
                    &&& shown[j].permissions == users0[j].permissions
                },
        decreases n - m,
    {
        let u = reversed.pop().unwrap();
        shown.push(u);
        m += 1;
    }
    shown
}


/// The account built from a users row keeps that row's id, name, password hash and end
/// date, and takes its rights right by right from the rights row (none without one).
pub proof fn lemma_account_keeps_its_rows(row: UserDB, permissions: Option<PermissionsDB>)
    ensures
        ({
            let u = User::from_rows_spec(row, permissions);
            &&& u.id == row.id
            &&& u.username == row.username
            &&& u.password == row.password
            &&& u.terminate == row.terminate
            &&& match permissions {
                Some(r) => u.permissions.manage_users == r.manage_users && u.permissions.upload_files
                    == r.upload_files && u.permissions.list_files == r.list_files
                    && u.permissions.delete_files == r.delete_files,
                None => !u.permissions.manage_users && !u.permissions.upload_files
                    && !u.permissions.list_files && !u.permissions.delete_files,
            }
        }),
{
}

} // verus!
