//! What an account may do, and when it may do what a request asks for.

use vstd::prelude::*;

verus! {

/// The rights of an account.
#[derive(Clone, Copy, Debug, PartialEq, Eq, Structural)]
pub struct Permissions {
    pub manage_users: bool,
    pub upload_files: bool,
    pub list_files: bool,
    pub delete_files: bool,
}

/// A row of the permissions table: the rights of the account with this id.
#[derive(Clone, Copy, Debug, PartialEq, Eq, Structural)]
pub struct PermissionsDB {
    pub id: i64,
    pub manage_users: bool,
    pub upload_files: bool,
    pub list_files: bool,
    pub delete_files: bool,
}

impl Permissions {
    /// Every right that `required` asks for is one that `self` holds.
    pub open spec fn grants(self, required: Permissions) -> bool {
        &&& required.manage_users ==> self.manage_users
        &&& required.upload_files ==> self.upload_files
        &&& required.list_files ==> self.list_files
        &&& required.delete_files ==> self.delete_files
    }

    /// No rights at all.
    pub open spec fn spec_none() -> Permissions {
        Permissions { manage_users: false, upload_files: false, list_files: false, delete_files: false }
    }

    /// Every right.
    pub open spec fn spec_all() -> Permissions {
        Permissions { manage_users: true, upload_files: true, list_files: true, delete_files: true }
    }

    /// Only the right to manage accounts.
    pub open spec fn spec_managing_users() -> Permissions {
        Permissions { manage_users: true, ..Permissions::spec_none() }
    }

    /// Only the right to upload.
    pub open spec fn spec_uploading() -> Permissions {
        Permissions { upload_files: true, ..Permissions::spec_none() }
    }

    /// Only the right to list files.
    pub open spec fn spec_listing() -> Permissions {
        Permissions { list_files: true, ..Permissions::spec_none() }
    }

    /// No rights at all.
    pub fn none() -> (p: Permissions)
        ensures
            p == Permissions::spec_none(),
    {
        Permissions { manage_users: false, upload_files: false, list_files: false, delete_files: false }
    }

    /// Every right.
    pub fn all() -> (p: Permissions)
        ensures
            p == Permissions::spec_all(),
    {
        Permissions { manage_users: true, upload_files: true, list_files: true, delete_files: true }
    }

    /// Only the right to manage accounts, which the account pages and forms ask for.
    pub fn managing_users() -> (p: Permissions)
        ensures
            p == Permissions::spec_managing_users(),
    {
        Permissions { manage_users: true, upload_files: false, list_files: false, delete_files: false }
    }

    /// Only the right to upload, which the upload form asks for.
    pub fn uploading() -> (p: Permissions)
        ensures
            p == Permissions::spec_uploading(),
    {
        Permissions { manage_users: false, upload_files: true, list_files: false, delete_files: false }
    }

    /// Only the right to list files, which the file list asks for.
    pub fn listing() -> (p: Permissions)
        ensures
            p == Permissions::spec_listing(),
    {
        Permissions { manage_users: false, upload_files: false, list_files: true, delete_files: false }
    }

    /// Whether these rights cover what `required` asks for.
    pub fn covers(&self, required: &Permissions) -> (r: bool)
        ensures
            r == self.grants(*required),
    {
        !(required.manage_users && !self.manage_users) && !(required.delete_files
            && !self.delete_files) && !(required.list_files && !self.list_files)
            && !(required.upload_files && !self.upload_files)
    }

    /// The rights of a stored row, or none when the account has no row: what the
    /// account lookups fall back to.
    pub fn from_row(row: Option<PermissionsDB>) -> (p: Permissions)
        ensures
            p == (match row {
                Some(r) => Permissions {
                    manage_users: r.manage_users,
                    upload_files: r.upload_files,
                    list_files: r.list_files,
                    delete_files: r.delete_files,
                },
                None => Permissions::spec_none(),
            }),
    {
        match row {
            Some(r) => Permissions {
                manage_users: r.manage_users,
                upload_files: r.upload_files,
                list_files: r.list_files,
                delete_files: r.delete_files,
            },
            None => Permissions::none(),
        }
    }
}

impl Default for Permissions {
    fn default() -> (p: Permissions)
        ensures
            p == Permissions::spec_none(),
    {
        Permissions::none()
    }
}

/// Every set of rights covers itself.
pub proof fn lemma_grants_reflexive(p: Permissions)
    ensures
        p.grants(p),
{
}

/// Covering is transitive: rights that cover `q`, where `q` covers `r`, cover `r`.
pub proof fn lemma_grants_transitive(p: Permissions, q: Permissions, r: Permissions)
    requires
        p.grants(q),
        q.grants(r),
    ensures
        p.grants(r),
{
}

/// A request that asks for no rights is covered by every account.
pub proof fn lemma_nothing_required(p: Permissions)
    ensures
        p.grants(Permissions::spec_none()),
{
}

/// An account with every right is covered for every request.
pub proof fn lemma_all_rights(required: Permissions)
    ensures
        Permissions::spec_all().grants(required),
{
}

/// An account with no rights is covered only for requests that ask for none.
pub proof fn lemma_no_rights(required: Permissions)
    ensures
        Permissions::spec_none().grants(required) <==> required == Permissions::spec_none(),
{
}


/// Rights cover a request exactly when each right it asks for is held, right by right:
/// no right stands in for another.
pub proof fn lemma_grants_right_by_right(p: Permissions, q: Permissions)
    ensures
        p.grants(q) <==> ((q.manage_users ==> p.manage_users) && (q.upload_files ==> p.upload_files)
            && (q.list_files ==> p.list_files) && (q.delete_files ==> p.delete_files)),
{
}

/// The single-right requests ask for exactly one right each, and are covered exactly by
/// the rights that hold it: listing files needs `list_files`, uploading `upload_files`,
/// managing accounts `manage_users`.
pub proof fn lemma_single_right_requests(p: Permissions)
    ensures
        Permissions::spec_listing() == (Permissions {
            manage_users: false,
            upload_files: false,
            list_files: true,
            delete_files: false,
        }),
        Permissions::spec_uploading() == (Permissions {
            manage_users: false,
            upload_files: true,
            list_files: false,
            delete_files: false,
        }),
        Permissions::spec_managing_users() == (Permissions {
            manage_users: true,
            upload_files: false,
            list_files: false,
            delete_files: false,
        }),
        Permissions::spec_none() == (Permissions {
            manage_users: false,
            upload_files: false,
            list_files: false,
            delete_files: false,
        }),
        p.grants(Permissions::spec_listing()) <==> p.list_files,
        p.grants(Permissions::spec_uploading()) <==> p.upload_files,
        p.grants(Permissions::spec_managing_users()) <==> p.manage_users,
{
}

} // verus!
