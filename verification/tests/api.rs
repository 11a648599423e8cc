use filesharing::accounts::{accounts_page, create_default_user, DeleteUserForm, SignInForm, UserForm};
use filesharing::api::{delete, get, post, put};
use filesharing::config::Features;
use filesharing::forms::FormField;
use filesharing::models::{CreateUserDB, File, User, UserNameID, UsernamePassword, users_without_passwords};
use filesharing::permissions::Permissions;
use filesharing::status::Status;

fn account(id: i64, name: &str, p: Permissions) -> User {
    User { id, username: name.to_string(), password: "h".to_string(), terminate: None, permissions: p }
}

#[test]
fn deleting_accounts() {
    let plain = account(4, "bob", Permissions::none());
    assert_eq!(delete::user(&plain, "4").unwrap(), 4);
    let e = delete::user(&plain, "5").unwrap_err();
    assert_eq!((e.status, e.message.as_str()), (Status::Forbidden, "You don't have the permissions to delete other users"));
    // A path that is not a number names account 0.
    assert!(delete::user(&plain, "abc").is_err());
    let admin = account(1, "root", Permissions::managing_users());
    assert_eq!(delete::user(&admin, "5").unwrap(), 5);
    assert_eq!(delete::user(&admin, "abc").unwrap(), 0);
}

#[test]
fn file_rights() {
    let plain = account(4, "bob", Permissions::none());
    let e = delete::admin_files(&plain).unwrap_err();
    assert_eq!(e.message, "You don't have permission to fetch this resource");
    let deleter = account(4, "bob", Permissions { delete_files: true, ..Permissions::none() });
    assert!(delete::admin_files(&deleter).is_ok());
    assert!(get::admin_files(&plain).is_err());
    assert!(get::admin_files(&account(4, "bob", Permissions::listing())).is_ok());
    let f = File {
        saved_name: "s".to_string(), file_name: "f".to_string(), file_type: "t".to_string(), destroy: None,
        password: None, username: "bob".to_string(), user_id: 4, created_at: None,
    };
    assert!(delete::own_files(&plain, &f).is_ok());
    let e = delete::own_files(&account(9, "eve", Permissions::all()), &f).unwrap_err();
    assert_eq!((e.status, e.message.as_str()), (Status::Forbidden, "You don't have permission to delete this resource"));
}

#[test]
fn looking_at_accounts() {
    let plain = account(4, "bob", Permissions::none());
    assert!(get::user(&plain, "bob").is_ok());
    let e = get::user(&plain, "alice").unwrap_err();
    assert_eq!(e.message, "You don't have the permissions to get information about other users");
    assert!(get::user(&account(1, "root", Permissions::managing_users()), "alice").is_ok());
    assert!(get::users(&plain).is_err());
    assert!(get::users(&account(1, "root", Permissions::all())).is_ok());
    let shown = users_without_passwords(vec![plain.clone(), account(1, "root", Permissions::all())]);
    assert_eq!(shown.len(), 2);
    assert_eq!(shown[0].username, "bob");
    assert_eq!(shown[1].permissions, Permissions::all());
}

#[test]
fn changing_accounts() {
    let plain = account(4, "bob", Permissions::none());
    let own = UsernamePassword { id: 4, username: "bob".to_string(), password: "x".to_string() };
    let other = UsernamePassword { id: 5, username: "alice".to_string(), password: "x".to_string() };
    assert!(put::update_password(&plain, &own).is_ok());
    assert_eq!(put::update_password(&plain, &other).unwrap_err().message, "You don't have the permissions to change the password of other users");
    assert!(put::update_username(&plain, &UserNameID { id: 4, username: "b".to_string() }).is_ok());
    assert!(put::update_username(&plain, &UserNameID { id: 5, username: "b".to_string() }).is_err());
    assert_eq!(put::update_user_permissions(&plain).unwrap_err().message, "You don't have the permissions to change user permissions");
    assert!(put::update_user_permissions(&account(1, "root", Permissions::managing_users())).is_ok());
    assert_eq!(post::create_user(&plain).unwrap_err().message, "You don't have the permissions to create a user");
}

#[test]
fn new_account_hashes_password() {
    let a = post::new_account(CreateUserDB {
        username: "n".to_string(), password: "pw".to_string(), terminate: Some(5), permissions: Permissions::listing(),
    }).unwrap();
    assert_eq!(a.username, "n");
    assert_eq!(a.terminate, Some(5));
    assert_eq!(a.password.len(), 60);
    assert!(bcrypt::verify("pw", &a.password).unwrap());
}

#[test]
fn default_user_has_every_right() {
    let a = create_default_user("admin".to_string(), "pw").unwrap();
    assert_eq!(a.permissions, Permissions::all());
    assert_eq!(a.terminate, None);
    assert_eq!(a.password.len(), 60);
    assert!(bcrypt::verify("pw", &a.password).unwrap());
}

#[test]
fn account_form() {
    let mut f = UserForm::new();
    f.take_username("zed".to_string());
    assert!(f.take_password(""));
    assert_eq!(f.password, "");
    assert!(f.take_terminate_on_create("").is_ok());
    assert_eq!(f.terminate, None);
    assert!(f.take_terminate_on_create("2024-05-01T12:30").is_ok());
    assert_eq!(f.terminate, Some(1714566600));
    let e = f.take_terminate_on_edit("").unwrap_err();
    assert_eq!(e.status, Status::BadRequest);
    let e = f.take_terminate_on_create("tomorrow").unwrap_err();
    assert_eq!(e.status, Status::BadRequest);
    f.take_flag(FormField::ListFiles);
    f.take_flag(FormField::Username);
    let a = f.into_account();
    assert_eq!(a.permissions, Permissions::listing());
    assert_eq!(a.terminate, Some(1714566600));
    assert!(UserForm::wants_text(FormField::Terminate));
    assert!(!UserForm::wants_text(FormField::ManageUsers));
}

#[test]
fn small_forms() {
    let mut s = SignInForm::new();
    s.take_text(FormField::Username, "u".to_string());
    s.take_text(FormField::Password, "p".to_string());
    s.take_text(FormField::Delete, "x".to_string());
    assert_eq!((s.username.as_str(), s.password.as_str()), ("u", "p"));
    assert!(SignInForm::wants_text(FormField::Password));
    let mut d = DeleteUserForm::new();
    d.take_text(FormField::Password, "x".to_string());
    d.take_text(FormField::Username, "gone".to_string());
    assert_eq!(d.username, "gone");
    assert_eq!(accounts_page(&Features { custom_client: true, disable_default_client: false }), "/legacy/users");
}
