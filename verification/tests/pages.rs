use filesharing::auth::sign_in;
use filesharing::config::Features;
use filesharing::models::{File, User, UserDB};
use filesharing::pages::{all_files_page, all_users_page, new_user_page, page_access, profile_page, upload_page, Page};
use filesharing::permissions::{Permissions, PermissionsDB};
use filesharing::status::{ApiError, Status};

fn account(manage: bool, list: bool) -> (UserDB, PermissionsDB) {
    let row = UserDB { id: 9, username: "kim".to_string(), password: bcrypt::hash("pw", 4).unwrap(), terminate: None };
    let rights = PermissionsDB { id: 9, manage_users: manage, upload_files: false, list_files: list, delete_files: false };
    (row, rights)
}

fn plain() -> Features {
    Features { custom_client: false, disable_default_client: false }
}

fn file(saved: &str, password: Option<String>, destroy: Option<i64>) -> File {
    File {
        saved_name: saved.to_string(),
        file_name: "cat.jpg".to_string(),
        file_type: "image/jpeg".to_string(),
        destroy,
        password,
        username: "kim".to_string(),
        user_id: 9,
        created_at: None,
    }
}

#[test]
fn page_rights() {
    let (row, rights) = account(false, false);
    assert!(page_access(Page::Upload, "pw", Some(row.clone()), Some(rights)).is_ok());
    assert!(page_access(Page::Profile, "pw", Some(row.clone()), Some(rights)).is_ok());
    for page in [Page::Files, Page::Users, Page::NewUser, Page::CreateUser, Page::EditUser, Page::DeleteUser] {
        let e = page_access(page, "pw", Some(row.clone()), Some(rights)).unwrap_err();
        assert_eq!((e.status, e.message.as_str()), (Status::Forbidden, "Lacking required permissions"));
    }
    let (row, rights) = account(true, false);
    assert_eq!(page_access(Page::CreateUser, "pw", Some(row.clone()), Some(rights)).unwrap().id, 9);
    let e = page_access(Page::Upload, "nope", Some(row), Some(rights)).unwrap_err();
    assert_eq!(e.message, "Wrong password");
    let e = page_access(Page::Upload, "pw", None, None).unwrap_err();
    assert_eq!(e.message, "Permission Denied");
}

#[test]
fn file_list_page() {
    let (row, rights) = account(false, true);
    let files = vec![file("a.jpg", None, None), file("b.jpg", Some("h".to_string()), Some(0))];
    let p = all_files_page(&plain(), "pw", Some(row.clone()), Some(rights), Ok(files)).unwrap();
    assert_eq!(p.delete_target, "/delete");
    assert_eq!(p.rows.len(), 2);
    assert_eq!(p.rows[0].saved_name, "a.jpg");
    assert_eq!(p.rows[0].icon, "assets/unlocked.svg");
    assert!(p.rows[0].destroy.is_none());
    assert_eq!(p.rows[1].icon, "assets/key.svg");
    let t = p.rows[1].destroy.clone().unwrap();
    assert_eq!((t.machine.as_str(), t.shown.as_str()), ("1970-01-01T00:00:00", "1970/01/01 00:00"));
    assert!(p.nav[2].current);
    let failed = Err(ApiError { status: Status::NotFound, message: "File not found: x".to_string() });
    let e = all_files_page(&plain(), "pw", Some(row), Some(rights), failed).unwrap_err();
    assert_eq!(e.message, "File not found: x");
    let (row, rights) = account(true, false);
    let e = all_files_page(&plain(), "pw", Some(row), Some(rights), Ok(vec![])).unwrap_err();
    assert_eq!(e.message, "Lacking required permissions");
}

#[test]
fn account_pages() {
    let (row, rights) = account(true, false);
    let other = User { id: 2, username: "lee".to_string(), password: String::new(), terminate: Some(86400), permissions: Permissions::listing() };
    let p = all_users_page(&plain(), "pw", Some(row.clone()), Some(rights), Ok(vec![other])).unwrap();
    assert_eq!(p.rows.len(), 1);
    assert_eq!(p.rows[0].username, "lee");
    assert_eq!(p.rows[0].terminate.clone().unwrap().machine, "1970-01-02T00:00:00");
    assert!(p.rows[0].rights[2].granted);
    assert!(p.nav[3].current);
    let n = new_user_page(&plain(), "pw", Some(row.clone()), Some(rights)).unwrap();
    assert!(n.rights.iter().all(|r| !r.granted));
    let pr = profile_page(&plain(), "pw", Some(row.clone()), Some(rights)).unwrap();
    assert!(pr.rights[0].granted);
    assert_eq!(pr.account.username, "kim");
    let u = upload_page(&plain(), "pw", Some(row), Some(rights)).unwrap();
    assert!(u.rights.is_empty());
    assert!(u.nav[1].current);
    let (row, rights) = account(false, true);
    assert!(new_user_page(&plain(), "pw", Some(row.clone()), Some(rights)).is_err());
    assert!(all_users_page(&plain(), "pw", Some(row), Some(rights), Ok(vec![])).is_err());
}

#[test]
fn sign_in_sets_cookie_only_after_check() {
    let (row, rights) = account(false, false);
    let r = sign_in("kim", "pw", Some(row.clone()), Some(rights)).unwrap();
    assert_eq!(r.set_cookie, "Authorization=Basic a2ltOnB3");
    assert_eq!(r.location, "/upload");
    let e = sign_in("kim", "bad", Some(row.clone()), Some(rights)).unwrap_err();
    assert_eq!((e.status, e.message.as_str()), (Status::Forbidden, "Wrong password"));
    assert!(sign_in("kim", "pw", None, None).is_err());
    assert_eq!(sign_in("kim", "pw", Some(row), None).unwrap_err().message, "Not signed in, try again");
}
