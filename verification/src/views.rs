//! What the built-in pages show: the navigation bar, page titles, the rights of an
//! account as checkboxes and the lock icon of a file. The HTML itself is written by the
//! application from these.

use vstd::prelude::*;
use crate::config::Features;
use crate::paths::{link_path, site_link};
use crate::permissions::Permissions;
use crate::text::{join3, owned};

verus! {

/// The pages of the navigation bar.
#[derive(Clone, Copy, Debug, PartialEq, Eq, Structural)]
pub enum Routes {
    Root,
    Upload,
    Files,
    Users,
    Profile,
    SignIn,
}

/// One link of the navigation bar; `current` marks the page being shown.
#[derive(Clone, Debug)]
pub struct NavItem {
    pub href: String,
    pub label: String,
    pub current: bool,
}

/// A link of the navigation bar to `route`, at `href`, labelled `name`.
pub fn nav_item(current: Routes, route: Routes, href: String, name: String) -> (item: NavItem)
    ensures
        item.href == href,
        item.label == name,
        item.current == (current == route),
{
    NavItem { href, label: name, current: current == route }
}

/// `item` links to `path` on the site under the label `label` and is marked exactly
/// when `route` is the page being shown.
pub open spec fn links_to(
    item: NavItem,
    features: Features,
    path: Seq<char>,
    label: Seq<char>,
    current: Routes,
    route: Routes,
) -> bool {
    &&& item.href@ == site_link(features, path)
    &&& item.label@ == label
    &&& item.current == (current == route)
}

/// The text of an optional name.
pub open spec fn name_view(name: Option<String>) -> Option<Seq<char>> {
    match name {
        Some(n) => Some(n@),
        None => None,
    }
}

/// `items` is the navigation bar of the page `current`: home, upload and files; the
/// account list for account managers; then the signed-in account's profile (labelled with
/// its name), or the sign-in page for visitors.
pub open spec fn nav_shows(
    items: Seq<NavItem>,
    features: Features,
    current: Routes,
    username: Option<Seq<char>>,
    permissions: Option<Permissions>,
) -> bool {
    let managers = permissions matches Some(p) && p.manage_users;
    let last = items.len() - 1;
    &&& items.len() == (if managers {
        5int
    } else {
        4int
    })
    &&& links_to(items[0], features, "/"@, "home"@, current, Routes::Root)
    &&& links_to(items[1], features, "/upload"@, "upload"@, current, Routes::Upload)
    &&& links_to(items[2], features, "/files"@, "files"@, current, Routes::Files)
    &&& managers ==> links_to(items[3], features, "/users"@, "users"@, current, Routes::Users)
    &&& match username {
        Some(name) => links_to(items[last], features, "/profile"@, name, current, Routes::Profile),
        None => links_to(items[last], features, "/signin"@, "signin"@, current, Routes::SignIn),
    }
}

/// The navigation bar of the page `current`: home, upload and files; the account list
/// for account managers; then the signed-in account's profile (labelled with its name),
/// or the sign-in page for visitors.
pub fn nav(
    features: &Features,
    current: Routes,
    username: Option<String>,
    permissions: Option<Permissions>,
) -> (items: Vec<NavItem>)
    ensures
        nav_shows(items@, *features, current, name_view(username), permissions),
{
    let mut items: Vec<NavItem> = Vec::new();
    items.push(nav_item(current, Routes::Root, link_path(features, "/"), owned("home")));
    items.push(nav_item(current, Routes::Upload, link_path(features, "/upload"), owned("upload")));
    items.push(nav_item(current, Routes::Files, link_path(features, "/files"), owned("files")));
    let managers = match permissions {
        Some(p) => p.manage_users,
        None => false,
    };
    if managers {
        items.push(nav_item(current, Routes::Users, link_path(features, "/users"), owned("users")));
    }
    match username {
        Some(name) => {
            items.push(nav_item(current, Routes::Profile, link_path(features, "/profile"), name));
        },
        None => {
            items.push(nav_item(current, Routes::SignIn, link_path(features, "/signin"), owned("signin")));
        },
    }
    items
}

/// The title of a page: `<server name> - <page>`.
pub fn page_title(server_name: &str, page: &str) -> (r: String)
    ensures
        r@ == server_name@ + " - "@ + page@,
{
    join3(server_name, " - ", page)
}

/// One right as the account pages show it: its label, the name of its checkbox, and
/// whether it is granted.
#[derive(Clone, Debug)]
pub struct PermissionRow {
    pub label: String,
    pub name: String,
    pub granted: bool,
}

/// `rows` shows the rights of `p` in the order the pages list them: managing accounts,
/// uploading, listing and deleting files.
pub open spec fn rows_show(rows: Seq<PermissionRow>, p: Permissions) -> bool {
    &&& rows.len() == 4
    &&& rows[0].label@ == "Manage users"@ && rows[0].name@ == "manage_users"@ && rows[0].granted
        == p.manage_users
    &&& rows[1].label@ == "Upload files"@ && rows[1].name@ == "upload_files"@ && rows[1].granted
        == p.upload_files
    &&& rows[2].label@ == "List files"@ && rows[2].name@ == "list_files"@ && rows[2].granted
        == p.list_files
    &&& rows[3].label@ == "Delete files"@ && rows[3].name@ == "delete_files"@ && rows[3].granted
        == p.delete_files
}

/// The rights of `p` in the order the pages list them: managing accounts, uploading,
/// listing and deleting files.
pub fn permission_rows(p: Permissions) -> (rows: Vec<PermissionRow>)
    ensures
        rows_show(rows@, p),
{
    let mut rows: Vec<PermissionRow> = Vec::new();
    rows.push(
        PermissionRow {
            label: owned("Manage users"),
            name: owned("manage_users"),
            granted: p.manage_users,
        },
    );
    rows.push(
        PermissionRow {
            label: owned("Upload files"),
            name: owned("upload_files"),
            granted: p.upload_files,
        },
    );
    rows.push(
        PermissionRow { label: owned("List files"), name: owned("list_files"), granted: p.list_files },
    );
    rows.push(
        PermissionRow {
            label: owned("Delete files"),
            name: owned("delete_files"),
            granted: p.delete_files,
        },
    );
    rows
}

/// A checkbox of the account list: its label, its name and whether it is ticked.
pub fn checkbox(label: &str, name: &str, checked: bool) -> (row: PermissionRow)
    ensures
        row.label@ == label@,
        row.name@ == name@,
        row.granted == checked,
{
    PermissionRow { label: owned(label), name: owned(name), granted: checked }
}

/// The icon of a file in the file list: a key for a protected file, an open lock otherwise.
pub open spec fn icon_of(protected: bool) -> Seq<char> {
    if protected {
        "assets/key.svg"@
    } else {
        "assets/unlocked.svg"@
    }
}

/// The icon of a file in the file list: a key for a protected file, an open lock otherwise.
pub fn file_icon(protected: bool) -> (r: String)
    ensures
        r@ == icon_of(protected),
{
    if protected {
        owned("assets/key.svg")
    } else {
        owned("assets/unlocked.svg")
    }
}

} // verus!
