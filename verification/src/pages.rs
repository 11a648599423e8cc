//! Who may open the built-in pages and send their account forms, and what each page
//! shows. The application writes the HTML from these.

use vstd::prelude::*;
use crate::auth::{auth_refusal, check_auth, lemma_accepted_sign_in};
use crate::clock::{date_time_texts, format_date_time};
use crate::password::bcrypt_verify_result;
use crate::config::Features;
use crate::models::{File, User, UserDB};
use crate::paths::{link_path, site_link};
use crate::permissions::{Permissions, PermissionsDB};
use crate::status::ApiError;
use crate::text::owned;
use crate::views::{
    file_icon, icon_of, nav, nav_shows, permission_rows, rows_show, NavItem,
    PermissionRow, Routes,
};

verus! {

/// The pages and forms that need a signed-in account.
#[derive(Clone, Copy, Debug, PartialEq, Eq, Structural)]
pub enum Page {
    Upload,
    Profile,
    Files,
    Users,
    NewUser,
    CreateUser,
    EditUser,
    DeleteUser,
}

/// The rights that a page or form asks for: none for the upload page and the profile,
/// listing files for the file list, managing accounts for the account pages and forms.
pub open spec fn required_rights(page: Page) -> Permissions {
    match page {
        Page::Upload => Permissions::spec_none(),
        Page::Profile => Permissions::spec_none(),
        Page::Files => Permissions::spec_listing(),
        Page::Users => Permissions::spec_managing_users(),
        Page::NewUser => Permissions::spec_managing_users(),
        Page::CreateUser => Permissions::spec_managing_users(),
        Page::EditUser => Permissions::spec_managing_users(),
        Page::DeleteUser => Permissions::spec_managing_users(),
    }
}

fn rights_for(page: Page) -> (p: Permissions)
    ensures
        p == required_rights(page),
{
    match page {
        Page::Upload => Permissions::none(),
        Page::Profile => Permissions::none(),
        Page::Files => Permissions::listing(),
        _ => Permissions::managing_users(),
    }
}

/// Decides whether a request may open `page`: `user` is the stored account with the
/// presented name (if any), `permissions` its rights row (if any) and `password` the
/// presented password. Answers the signed-in account, or the refusal of `check_auth` for
/// the rights the page asks for.
pub fn page_access(
    page: Page,
    password: &str,
    user: Option<UserDB>,
    permissions: Option<PermissionsDB>,
) -> (r: Result<User, ApiError>)
    ensures
        match auth_refusal(password@, user, permissions, Some(required_rights(page))) {
            Some(refusal) => r matches Err(e) && (e.status, e.message@) == refusal,
            None => r matches Ok(u) && u == User::from_rows_spec(user.unwrap(), permissions),
        },
{
    check_auth(password, user, permissions, Some(rights_for(page)))
}

/// A time as the pages write it: for the `datetime` attribute and for the reader.
#[derive(Clone, Debug)]
pub struct TimeText {
    pub machine: String,
    pub shown: String,
}

/// `text` is how the pages write the optional time `t`.
pub open spec fn time_shown(text: Option<TimeText>, t: Option<i64>) -> bool {
    match t {
        None => text is None,
        Some(s) => match date_time_texts(s) {
            Some((a, b)) => text matches Some(x) && x.machine@ == a && x.shown@ == b,
            None => text is None,
        },
    }
}

fn time_text(t: Option<i64>) -> (r: Option<TimeText>)
    ensures
        time_shown(r, t),
{
    match t {
        None => None,
        Some(s) => match format_date_time(s) {
            Some((machine, shown)) => Some(TimeText { machine, shown }),
            None => None,
        },
    }
}

/// One file of the file list.
#[derive(Clone, Debug)]
pub struct FileRow {
    pub file_name: String,
    /// The stored name: the link to the file and the value of its delete button.
    pub saved_name: String,
    pub icon: String,
    pub file_type: String,
    /// When the file is to be deleted, if it is.
    pub destroy: Option<TimeText>,
}

/// `row` shows the file `f`: its name, stored name, lock icon, media type and deletion time.
pub open spec fn file_row_shows(row: FileRow, f: File) -> bool {
    &&& row.file_name@ == f.file_name@
    &&& row.saved_name@ == f.saved_name@
    &&& row.icon@ == icon_of(f.password is Some)
    &&& row.file_type@ == f.file_type@
    &&& time_shown(row.destroy, f.destroy)
}

fn file_row(f: &File) -> (r: FileRow)
    ensures
        file_row_shows(r, *f),
{
    FileRow {
        file_name: owned(f.file_name.as_str()),
        saved_name: owned(f.saved_name.as_str()),
        icon: file_icon(f.password.is_some()),
        file_type: owned(f.file_type.as_str()),
        destroy: time_text(f.destroy),
    }
}

/// The file list page: its navigation bar, where the delete buttons send, and one row
/// per file.
#[derive(Clone, Debug)]
pub struct FilesPage {
    pub nav: Vec<NavItem>,
    pub delete_target: String,
    pub rows: Vec<FileRow>,
}

/// The file list: an account that does not sign in with the right to list files is
/// refused as `check_auth` refuses it, a failed listing keeps its error, and otherwise the
/// page shows the navigation bar of the signed-in account and one row per file, in order.
pub fn all_files_page(
    features: &Features,
    password: &str,
    user: Option<UserDB>,
    permissions: Option<PermissionsDB>,
    files: Result<Vec<File>, ApiError>,
) -> (r: Result<FilesPage, ApiError>)
    ensures
        match auth_refusal(password@, user, permissions, Some(Permissions::spec_listing())) {
            Some(refusal) => r matches Err(e) && (e.status, e.message@) == refusal,
            None => match files {
                Err(e) => r matches Err(e2) && e2.status == e.status && e2.message@ == e.message@,
                Ok(v) => r matches Ok(page) && {
                    let account = User::from_rows_spec(user.unwrap(), permissions);
                    &&& nav_shows(
                        page.nav@,
                        *features,
                        Routes::Files,
                        Some(account.username@),
                        Some(account.permissions),
                    )
                    &&& page.delete_target@ == site_link(*features, "/delete"@)
                    &&& page.rows.len() == v.len()
                    &&& forall|i: int| 0 <= i < v.len() ==> file_row_shows(#[trigger] page.rows[i], v[i])
                },
            },
        },
{
    let account = match page_access(Page::Files, password, user, permissions) {
        Ok(a) => a,
        Err(e) => {
            return Err(e);
        },
    };
    let v = match files {
        Ok(v) => v,
        Err(e) => {
            return Err(e);
        },
    };
    let mut rows: Vec<FileRow> = Vec::new();
    let mut i: usize = 0;
    while i < v.len()
        invariant
            i <= v.len(),
            rows.len() == i,
            forall|k: int| 0 <= k < i ==> file_row_shows(#[trigger] rows[k], v[k]),
        decreases v.len() - i,
    {
        let row = file_row(&v[i]);
        rows.push(row);
        i += 1;
    }
    let items = nav(features, Routes::Files, Some(account.username), Some(account.permissions));
    Ok(FilesPage { nav: items, delete_target: link_path(features, "/delete"), rows })
}

/// One account of the account list.
#[derive(Clone, Debug)]
pub struct UserRow {
    pub username: String,
    /// When the account ends, if it does.
    pub terminate: Option<TimeText>,
    /// Its rights as checkboxes.
    pub rights: Vec<PermissionRow>,
}

/// `row` shows the account `u`: its name, end date and rights.
pub open spec fn user_row_shows(row: UserRow, u: User) -> bool {
    &&& row.username@ == u.username@
    &&& time_shown(row.terminate, u.terminate)
    &&& rows_show(row.rights@, u.permissions)
}

fn user_row(u: &User) -> (r: UserRow)
    ensures
        user_row_shows(r, *u),
{
    UserRow {
        username: owned(u.username.as_str()),
        terminate: time_text(u.terminate),
        rights: permission_rows(u.permissions),
    }
}

/// The account list page: its navigation bar and one row per account.
#[derive(Clone, Debug)]
pub struct UsersPage {
    pub nav: Vec<NavItem>,
    pub rows: Vec<UserRow>,
}

/// The account list: an account that does not sign in with the right to manage accounts
/// is refused as `check_auth` refuses it, a failed lookup keeps its error, and otherwise
/// the page shows the navigation bar of the signed-in account and one row per account, in
/// order.
pub fn all_users_page(
    features: &Features,
    password: &str,
    user: Option<UserDB>,
    permissions: Option<PermissionsDB>,
    users: Result<Vec<User>, ApiError>,
) -> (r: Result<UsersPage, ApiError>)
    ensures
        match auth_refusal(password@, user, permissions, Some(Permissions::spec_managing_users())) {
            Some(refusal) => r matches Err(e) && (e.status, e.message@) == refusal,
            None => match users {
                Err(e) => r matches Err(e2) && e2.status == e.status && e2.message@ == e.message@,
                Ok(v) => r matches Ok(page) && {
                    let account = User::from_rows_spec(user.unwrap(), permissions);
                    &&& nav_shows(
                        page.nav@,
                        *features,
                        Routes::Users,
                        Some(account.username@),
                        Some(account.permissions),
                    )
                    &&& page.rows.len() == v.len()
                    &&& forall|i: int| 0 <= i < v.len() ==> user_row_shows(#[trigger] page.rows[i], v[i])
                },
            },
        },
{
    let account = match page_access(Page::Users, password, user, permissions) {
        Ok(a) => a,
        Err(e) => {
            return Err(e);
        },
    };
    let v = match users {
        Ok(v) => v,
        Err(e) => {
            return Err(e);
        },
    };
    let mut rows: Vec<UserRow> = Vec::new();
    let mut i: usize = 0;
    while i < v.len()
        invariant
            i <= v.len(),
            rows.len() == i,
            forall|k: int| 0 <= k < i ==> user_row_shows(#[trigger] rows[k], v[k]),
        decreases v.len() - i,
    {
        let row = user_row(&v[i]);
        rows.push(row);
        i += 1;
    }
    let items = nav(features, Routes::Users, Some(account.username), Some(account.permissions));
    Ok(UsersPage { nav: items, rows })
}

/// A page about the signed-in account: the account, the navigation bar and the rights
/// checkboxes it shows.
#[derive(Clone, Debug)]
pub struct AccountPage {
    pub account: User,
    pub nav: Vec<NavItem>,
    pub rights: Vec<PermissionRow>,
}

/// The upload, profile and new-account pages: an account that does not sign in with the
/// rights the page asks for is refused as `check_auth` refuses it. Otherwise the page
/// shows the signed-in account's navigation bar (marked on the upload, profile or account
/// list link) and its rights checkboxes: none on the upload page, the account's own on
/// the profile, and empty ones for the new account.
pub open spec fn account_page_shows(page: Page, p: AccountPage, features: Features, account: User) -> bool {
    &&& p.account == account
    &&& match page {
        Page::Upload => nav_shows(p.nav@, features, Routes::Upload, Some(account.username@), Some(account.permissions))
            && p.rights.len() == 0,
        Page::Profile => nav_shows(p.nav@, features, Routes::Profile, Some(account.username@), Some(account.permissions))
            && rows_show(p.rights@, account.permissions),
        _ => nav_shows(p.nav@, features, Routes::Users, Some(account.username@), Some(account.permissions))
            && rows_show(p.rights@, Permissions::spec_none()),
    }
}

fn account_page(page: Page, features: &Features, account: User) -> (r: AccountPage)
    requires
        page == Page::Upload || page == Page::Profile || page == Page::NewUser,
    ensures
        account_page_shows(page, r, *features, account),
{
    let (route, rights) = match page {
        Page::Upload => (Routes::Upload, Vec::new()),
        Page::Profile => (Routes::Profile, permission_rows(account.permissions)),
        _ => (Routes::Users, permission_rows(Permissions::none())),
    };
    let items = nav(features, route, Some(owned(account.username.as_str())), Some(account.permissions));
    AccountPage { account, nav: items, rights }
}

/// The upload page, for any signed-in account.
pub fn upload_page(
    features: &Features,
    password: &str,
    user: Option<UserDB>,
    permissions: Option<PermissionsDB>,
) -> (r: Result<AccountPage, ApiError>)
    ensures
        match auth_refusal(password@, user, permissions, Some(Permissions::spec_none())) {
            Some(refusal) => r matches Err(e) && (e.status, e.message@) == refusal,
            None => r matches Ok(p) && account_page_shows(
                Page::Upload,
                p,
                *features,
                User::from_rows_spec(user.unwrap(), permissions),
            ),
        },
{
    match page_access(Page::Upload, password, user, permissions) {
        Ok(a) => Ok(account_page(Page::Upload, features, a)),
        Err(e) => Err(e),
    }
}

/// The profile page, for any signed-in account.
pub fn profile_page(
    features: &Features,
    password: &str,
    user: Option<UserDB>,
    permissions: Option<PermissionsDB>,
) -> (r: Result<AccountPage, ApiError>)
    ensures
        match auth_refusal(password@, user, permissions, Some(Permissions::spec_none())) {
            Some(refusal) => r matches Err(e) && (e.status, e.message@) == refusal,
            None => r matches Ok(p) && account_page_shows(
                Page::Profile,
                p,
                *features,
                User::from_rows_spec(user.unwrap(), permissions),
            ),
        },
{
    match page_access(Page::Profile, password, user, permissions) {
        Ok(a) => Ok(account_page(Page::Profile, features, a)),
        Err(e) => Err(e),
    }
}

/// The new-account page, for account managers.
pub fn new_user_page(
    features: &Features,
    password: &str,
    user: Option<UserDB>,
    permissions: Option<PermissionsDB>,
) -> (r: Result<AccountPage, ApiError>)
    ensures
        match auth_refusal(password@, user, permissions, Some(Permissions::spec_managing_users())) {
            Some(refusal) => r matches Err(e) && (e.status, e.message@) == refusal,
            None => r matches Ok(p) && account_page_shows(
                Page::NewUser,
                p,
                *features,
                User::from_rows_spec(user.unwrap(), permissions),
            ),
        },
{
    match page_access(Page::NewUser, password, user, permissions) {
        Ok(a) => Ok(account_page(Page::NewUser, features, a)),
        Err(e) => Err(e),
    }
}


/// The account pages and forms (the account list, the new-account page, and creating,
/// editing and deleting accounts) open only to accounts whose rights row holds
/// `manage_users`; the file list only to those holding `list_files`; and every page only
/// to an existing account presenting its own password.
pub proof fn lemma_page_rights(
    page: Page,
    password: Seq<char>,
    user: Option<UserDB>,
    permissions: Option<PermissionsDB>,
)
    requires
        auth_refusal(password, user, permissions, Some(required_rights(page))) is None,
    ensures
        user is Some && permissions is Some,
        bcrypt_verify_result(password, user.unwrap().password@) == Ok::<bool, Seq<char>>(true),
        (page == Page::Users || page == Page::NewUser || page == Page::CreateUser || page
            == Page::EditUser || page == Page::DeleteUser) ==> permissions.unwrap().manage_users,
        page == Page::Files ==> permissions.unwrap().list_files,
{
    lemma_accepted_sign_in(password, user, permissions, Some(required_rights(page)));
}

/// The rights each page asks for, right by right: nothing for the upload page and the
/// profile, only `list_files` for the file list, only `manage_users` for the account pages
/// and forms.
pub proof fn lemma_required_rights_of_pages()
    ensures
        required_rights(Page::Upload) == (Permissions {
            manage_users: false,
            upload_files: false,
            list_files: false,
            delete_files: false,
        }),
        required_rights(Page::Profile) == (Permissions {
            manage_users: false,
            upload_files: false,
            list_files: false,
            delete_files: false,
        }),
        required_rights(Page::Files) == (Permissions {
            manage_users: false,
            upload_files: false,
            list_files: true,
            delete_files: false,
        }),
        forall|page: Page|
            (page == Page::Users || page == Page::NewUser || page == Page::CreateUser || page
                == Page::EditUser || page == Page::DeleteUser) ==> #[trigger] required_rights(page)
                == (Permissions {
                manage_users: true,
                upload_files: false,
                list_files: false,
                delete_files: false,
            }),
{
}

/// The file list shows no account's files to an account whose rights row lacks
/// `list_files`, whatever else it holds.
pub proof fn lemma_file_list_needs_list_right(
    password: Seq<char>,
    user: Option<UserDB>,
    permissions: PermissionsDB,
)
    requires
        !permissions.list_files,
    ensures
        auth_refusal(password, user, Some(permissions), Some(Permissions::spec_listing())) is Some,
{
    if auth_refusal(password, user, Some(permissions), Some(Permissions::spec_listing())) is None {
        lemma_accepted_sign_in(password, user, Some(permissions), Some(Permissions::spec_listing()));
    }
}

} // verus!
