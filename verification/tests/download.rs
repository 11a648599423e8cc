use filesharing::db::{
    create_user_db, created_user, delete_file, delete_file_record, delete_user_db, edit_user_db,
    edit_user_password, edit_user_username, edit_user_permissions, get_all_files_from_db, get_file_from_db,
    get_files_from_db, get_user_by_username, get_user_from_db, get_users_from_db, RemoveOutcome,
};
use filesharing::download::{content_disposition, delete_file_route, download_file, get_file, DownloadForm, DECOY_HASH};
use filesharing::forms::FormField;
use filesharing::models::{File, UserDB};
use filesharing::password::hash_password;
use filesharing::permissions::{Permissions, PermissionsDB};
use filesharing::status::{ApiError, Reply, Status};

fn file(password: Option<String>) -> File {
    File {
        saved_name: "id.txt".to_string(),
        file_name: "notes.txt".to_string(),
        file_type: "text/plain".to_string(),
        destroy: None,
        password,
        username: "alice".to_string(),
        user_id: 3,
        created_at: None,
    }
}

#[test]
fn disposition_header() {
    assert_eq!(content_disposition("a b.txt"), "attachment; filename=\"a b.txt\"");
}

#[test]
fn download_of_missing_file_keeps_error() {
    let e = download_file(get_file_from_db(None), "x").unwrap_err();
    assert_eq!(e.status, Status::NotFound);
    assert_eq!(e.message, "File not found");
}

#[test]
fn download_of_open_file() {
    let d = download_file(Ok(file(None)), "").unwrap();
    assert_eq!(d.saved_name, "id.txt");
    assert_eq!(d.content_type, "text/plain");
    assert_eq!(d.content_disposition, "attachment; filename=\"notes.txt\"");
}

#[test]
fn download_with_password() {
    let h = hash_password("open sesame").unwrap();
    assert!(download_file(Ok(file(Some(h.clone()))), "open sesame").is_ok());
    let e = download_file(Ok(file(Some(h))), "wrong").unwrap_err();
    assert_eq!((e.status, e.message.as_str()), (Status::NotFound, "File not found"));
    let e = download_file(Ok(file(Some(DECOY_HASH.to_string()))), "never").unwrap_err();
    assert_eq!(e.status, Status::NotFound);
    let e = download_file(Ok(file(Some("garbage".to_string()))), "x").unwrap_err();
    assert_eq!(e.status, Status::InternalServerError);
    assert!(e.message.starts_with("Error with password hash verification: "));
}

#[test]
fn direct_link_hides_protected_files() {
    let (name, media) = get_file(Ok(file(None))).unwrap();
    assert_eq!((name.as_str(), media.as_str()), ("id.txt", "text/plain"));
    let e = get_file(Ok(file(Some("h".to_string())))).unwrap_err();
    assert_eq!((e.status, e.message.as_str()), (Status::NotFound, "File not found"));
}

#[test]
fn download_form_fields() {
    let mut f = DownloadForm::new();
    f.take_text(FormField::FileName, "a".to_string());
    f.take_text(FormField::Password, "b".to_string());
    f.take_text(FormField::Username, "c".to_string());
    assert_eq!((f.file_name.as_str(), f.password.as_str()), ("a", "b"));
}

#[test]
fn delete_page() {
    let ok = delete_file_route(Ok(Reply { status: Status::Success, body: "Deleted file".to_string() }));
    assert_eq!((ok.status, ok.body.as_str()), (Status::Success, "<p>deleted</p>"));
    let bad = delete_file_route(Err(ApiError { status: Status::InternalServerError, message: "Couldn't delete".to_string() }));
    assert_eq!((bad.status, bad.body.as_str()), (Status::InternalServerError, "<p>Couldn't delete</p>"));
}

#[test]
fn file_deletion_steps() {
    assert!(delete_file(RemoveOutcome::Removed).is_ok());
    assert!(delete_file(RemoveOutcome::Missing).is_ok());
    let e = delete_file(RemoveOutcome::Failed).unwrap_err();
    assert_eq!((e.status, e.message.as_str()), (Status::InternalServerError, "Couldn't delete"));
    let r = delete_file_record(true).unwrap();
    assert_eq!((r.status, r.body.as_str()), (Status::Success, "Deleted file"));
    let e = delete_file_record(false).unwrap_err();
    assert_eq!(e.message, "Couldn't remove from database");
}

#[test]
fn account_statement_outcomes() {
    let r = delete_user_db(Some(2), 42).unwrap();
    assert_eq!((r.status, r.body.as_str()), (Status::Success, "Deleted user: 42"));
    let e = delete_user_db(Some(1), 42).unwrap_err();
    assert_eq!((e.status, e.message.as_str()), (Status::NotFound, "User does not exist"));
    let e = delete_user_db(None, 42).unwrap_err();
    assert_eq!((e.status, e.message.as_str()), (Status::InternalServerError, "Couldn't remove from database"));
    assert_eq!(edit_user_password(Some(2)).unwrap().body, "Updated password");
    assert_eq!(edit_user_password(Some(0)).unwrap_err().message, "User does not exist");
    assert_eq!(edit_user_password(None).unwrap_err().message, "Couldn't edit user");
    assert_eq!(edit_user_permissions(Some(3)).unwrap().body, "Updated user permissions");
    assert_eq!(edit_user_username(Some(2)).unwrap().body, "Updated username");
    assert_eq!(edit_user_username(Some(1)).unwrap_err().status, Status::NotFound);
    assert_eq!(edit_user_db(true).unwrap().body, "Created user");
    assert_eq!(edit_user_db(false).unwrap_err().status, Status::InternalServerError);
    assert!(create_user_db(None).is_ok());
    assert_eq!(create_user_db(Some("UNIQUE".to_string())).unwrap_err().message, "Couldn't create user, UNIQUE");
    let e = created_user(Err(Status::NotFound)).unwrap_err();
    assert_eq!((e.status, e.message.as_str()), (Status::NotFound, "Somehow we can't find the user you just created?"));
}

#[test]
fn lookups() {
    let row = UserDB { id: 5, username: "u".to_string(), password: "p".to_string(), terminate: Some(10) };
    let u = get_user_by_username(Some(row.clone()), None).unwrap();
    assert_eq!(u.permissions, Permissions::none());
    assert_eq!(u.terminate, Some(10));
    assert_eq!(get_user_by_username(None, None).unwrap_err(), Status::NotFound);
    let e = get_user_from_db(None, None).unwrap_err();
    assert_eq!((e.status, e.message.as_str()), (Status::InternalServerError, "Cannot find a user by that username"));
    let perms = PermissionsDB { id: 5, manage_users: false, upload_files: false, list_files: true, delete_files: false };
    let users = get_users_from_db(Ok(vec![row.clone(), row]), vec![Some(perms), None]).unwrap();
    assert_eq!(users.len(), 2);
    assert!(users[0].permissions.list_files);
    assert_eq!(users[1].permissions, Permissions::none());
    let e = get_users_from_db(Err("boom".to_string()), vec![]).unwrap_err();
    assert_eq!((e.status, e.message.as_str()), (Status::NotFound, "File not found: boom"));
    let e = get_all_files_from_db(Err("db".to_string())).unwrap_err();
    assert_eq!(e.message, "File not found: db");
    let listing = get_files_from_db(vec![file(None), file(Some("h".to_string()))]);
    assert_eq!(listing.len(), 2);
    assert!(!listing[0].password_protected && listing[1].password_protected);
}
