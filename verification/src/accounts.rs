//! The account forms of the built-in pages: signing in, creating, editing and deleting
//! accounts, and the first account made from the server's settings.

use vstd::prelude::*;
use crate::clock::{form_date_time, parse_form_date_time};
use crate::config::Features;
use crate::forms::FormField;
use crate::models::CreateUserDB;
use crate::password::{bcrypt_hash, bcrypt_verify_result};
use crate::paths::{link_path, site_link};
use crate::permissions::Permissions;
use crate::status::{ApiError, Status};

verus! {

/// What the sign-in form has sent so far.
#[derive(Debug)]
pub struct SignInForm {
    pub username: String,
    pub password: String,
}

impl SignInForm {
    /// A form with nothing sent yet.
    pub fn new() -> (f: SignInForm)
        ensures
            f.username@ == Seq::<char>::empty(),
            f.password@ == Seq::<char>::empty(),
    {
        SignInForm { username: String::new(), password: String::new() }
    }

    /// Whether the form reads the text of `field`: its `username` and `password` parts.
    pub fn wants_text(field: FormField) -> (r: bool)
        ensures
            r == (field == FormField::Username || field == FormField::Password),
    {
        field == FormField::Username || field == FormField::Password
    }

    /// Takes the text of a part: the name or the password; other parts change nothing.
    pub fn take_text(&mut self, field: FormField, text: String)
        ensures
            final(self).username == (if field == FormField::Username {
                text
            } else {
                old(self).username
            }),
            final(self).password == (if field == FormField::Password {
                text
            } else {
                old(self).password
            }),
    {
        match field {
            FormField::Username => {
                self.username = text;
            },
            FormField::Password => {
                self.password = text;
            },
            _ => {},
        }
    }
}

/// What the account deletion form has sent: the name of the account to delete.
#[derive(Debug)]
pub struct DeleteUserForm {
    pub username: String,
}

impl DeleteUserForm {
    /// A form with nothing sent yet.
    pub fn new() -> (f: DeleteUserForm)
        ensures
            f.username@ == Seq::<char>::empty(),
    {
        DeleteUserForm { username: String::new() }
    }

    /// Takes the text of a part: only `username` counts.
    pub fn take_text(&mut self, field: FormField, text: String)
        ensures
            final(self).username == (if field == FormField::Username {
                text
            } else {
                old(self).username
            }),
    {
        if field == FormField::Username {
            self.username = text;
        }
    }
}

/// What an account form (create or edit) has sent so far.
#[derive(Debug)]
pub struct UserForm {
    pub username: String,
    /// The hash of the password given, or empty text when none was given.
    pub password: String,
    pub terminate: Option<i64>,
    pub permissions: Permissions,
}

impl UserForm {
    /// A form with nothing sent yet: no name, no password, no end date and no rights.
    pub fn new() -> (f: UserForm)
        ensures
            f.username@ == Seq::<char>::empty(),
            f.password@ == Seq::<char>::empty(),
            f.terminate is None,
            f.permissions == Permissions::spec_none(),
    {
        UserForm {
            username: String::new(),
            password: String::new(),
            terminate: None,
            permissions: Permissions::none(),
        }
    }

    /// The `username` part.
    pub fn take_username(&mut self, text: String)
        ensures
            final(self).username == text,
            final(self).password == old(self).password,
            final(self).terminate == old(self).terminate,
            final(self).permissions == old(self).permissions,
    {
        self.username = text;
    }

    /// The `password` part: a non-empty password is hashed; an empty one changes nothing
    /// (so an account created without one keeps an empty password, which no password
    /// matches). Answers `false` when no hash could be made (the server stops there).
    pub fn take_password(&mut self, text: &str) -> (ok: bool)
        ensures
            text@.len() == 0 ==> ok && final(self).password == old(self).password,
            text@.len() > 0 && ok ==> final(self).password@.len() == 60 && bcrypt_verify_result(text@, final(self).password@) == Ok::<
                bool,
                Seq<char>,
            >(true),
            !ok ==> text@.len() > 0 && final(self).password == old(self).password,
            final(self).username == old(self).username,
            final(self).terminate == old(self).terminate,
            final(self).permissions == old(self).permissions,
    {
        if text.is_empty() {
            return true;
        }
        match bcrypt_hash(text) {
            Some(h) => {
                self.password = h;
                true
            },
            None => false,
        }
    }

    /// The `terminate` part of the creation form: an empty date means no end date; any
    /// other text must be a date and time (`YYYY-MM-DDTHH:MM`), else the form is refused
    /// with `400` and the parser's message.
    pub fn take_terminate_on_create(&mut self, text: &str) -> (r: Result<(), ApiError>)
        ensures
            text@.len() == 0 ==> r is Ok && final(self).terminate == old(self).terminate,
            text@.len() > 0 ==> match form_date_time(text@) {
                Ok(t) => r is Ok && final(self).terminate == Some(t),
                Err(m) => r matches Err(e) && e.status == Status::BadRequest && e.message@ == m,
            },
            final(self).username == old(self).username,
            final(self).password == old(self).password,
            final(self).permissions == old(self).permissions,
    {
        if text.is_empty() {
            return Ok(());
        }
        self.take_terminate_on_edit(text)
    }

    /// The `terminate` part of the edit form: the text must be a date and time
    /// (`YYYY-MM-DDTHH:MM`), else the form is refused with `400` and the parser's message.
    pub fn take_terminate_on_edit(&mut self, text: &str) -> (r: Result<(), ApiError>)
        ensures
            match form_date_time(text@) {
                Ok(t) => r is Ok && final(self).terminate == Some(t),
                Err(m) => r matches Err(e) && e.status == Status::BadRequest && e.message@ == m
                    && final(self).terminate == old(self).terminate,
            },
            final(self).username == old(self).username,
            final(self).password == old(self).password,
            final(self).permissions == old(self).permissions,
    {
        match parse_form_date_time(text) {
            Ok(t) => {
                self.terminate = Some(t);
                Ok(())
            },
            Err(m) => Err(ApiError { status: Status::BadRequest, message: m }),
        }
    }

    /// A rights checkbox: `manage_users`, `upload_files`, `list_files` or `delete_files`
    /// grants that right; other parts change nothing.
    pub fn take_flag(&mut self, field: FormField)
        ensures
            final(self).permissions.manage_users == (old(self).permissions.manage_users || field
                == FormField::ManageUsers),
            final(self).permissions.upload_files == (old(self).permissions.upload_files || field
                == FormField::UploadFiles),
            final(self).permissions.list_files == (old(self).permissions.list_files || field
                == FormField::ListFiles),
            final(self).permissions.delete_files == (old(self).permissions.delete_files || field
                == FormField::DeleteFiles),
            final(self).username == old(self).username,
            final(self).password == old(self).password,
            final(self).terminate == old(self).terminate,
    {
        match field {
            FormField::ManageUsers => {
                self.permissions.manage_users = true;
            },
            FormField::UploadFiles => {
                self.permissions.upload_files = true;
            },
            FormField::ListFiles => {
                self.permissions.list_files = true;
            },
            FormField::DeleteFiles => {
                self.permissions.delete_files = true;
            },
            _ => {},
        }
    }

    /// Whether the form reads the text of `field`: its `username`, `password` and
    /// `terminate` parts (the rights checkboxes count by their presence alone).
    pub fn wants_text(field: FormField) -> (r: bool)
        ensures
            r == (field == FormField::Username || field == FormField::Password || field
                == FormField::Terminate),
    {
        field == FormField::Username || field == FormField::Password || field == FormField::Terminate
    }

    /// The account the form describes.
    pub fn into_account(self) -> (a: CreateUserDB)
        ensures
            a.username == self.username,
            a.password == self.password,
            a.terminate == self.terminate,
            a.permissions == self.permissions,
    {
        CreateUserDB {
            username: self.username,
            password: self.password,
            terminate: self.terminate,
            permissions: self.permissions,
        }
    }
}

/// Where the account forms lead back to: the account list.
pub fn accounts_page(features: &Features) -> (r: String)
    ensures
        r@ == site_link(*features, "/users"@),
{
    link_path(features, "/users")
}

/// The first account, made from the configured name and password: every right, no end
/// date, the password hashed; `None` when no hash could be made.
pub fn create_default_user(username: String, password: &str) -> (r: Option<CreateUserDB>)
    ensures
        r matches Some(a) ==> {
            &&& a.username == username
            &&& a.permissions == Permissions::spec_all()
            &&& a.terminate is None
            &&& a.password@.len() == 60
            &&& bcrypt_verify_result(password@, a.password@) == Ok::<bool, Seq<char>>(true)
        },
{
    match bcrypt_hash(password) {
        Some(h) => Some(
            CreateUserDB { username, password: h, terminate: None, permissions: Permissions::all() },
        ),
        None => None,
    }
}

} // verus!
