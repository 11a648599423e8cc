//! Signing in with a name and a password, from the sign-in form or from the session
//! cookie, and checking the account's rights (the `check_auth` step of every page that
//! needs an account).

use vstd::prelude::*;
use crate::basic_auth::{
    basic_credentials_token, basic_header, basic_header_credentials, basic_scheme_prefix,
    read_basic_header, reads_as,
};
use crate::models::{User, UserDB};
use crate::password::{bcrypt_verify, bcrypt_verify_result};
use crate::permissions::{Permissions, PermissionsDB};
use crate::status::{api_error, ApiError, Status};
use crate::text::{join3, owned};

verus! {

/// The name of the cookie that keeps a browser signed in.
pub const AUTH_COOKIE: &'static str = "Authorization";

/// How a request identifies its account: by the value of the session cookie (absent when
/// the request has none), or by a name and password given directly.
#[derive(Clone, Debug)]
pub enum AuthOrBasic {
    Cookie(Option<String>),
    Basic(String, String),
}

/// The text of an optional cookie value; a missing cookie reads as empty text.
pub open spec fn cookie_text(value: Option<String>) -> Seq<char> {
    match value {
        Some(v) => v@,
        None => seq![],
    }
}

/// The session cookie value that signing in as `user` with `password` produces.
pub open spec fn session_value(user: Seq<char>, password: Seq<char>) -> Seq<char> {
    basic_scheme_prefix() + basic_credentials_token(user, password)
}

/// The name and password that a request presents. A cookie whose value is not a `Basic`
/// authorization value is refused with `403 Try signing in again`.
pub fn auth_credentials(auth: AuthOrBasic) -> (r: Result<(String, String), ApiError>)
    ensures
        match auth {
            AuthOrBasic::Basic(u, p) => r matches Ok((u2, p2)) && u2 == u && p2 == p,
            AuthOrBasic::Cookie(v) => match basic_header_credentials(cookie_text(v)) {
                Some((u, p)) => r matches Ok((u2, p2)) && u2@ == u && p2@ == p,
                None => r matches Err(e) && e.status == Status::Forbidden && e.message@
                    == "Try signing in again"@,
            },
        },
        // The cookie that signing in hands out authenticates as the account that signed in.
        auth matches AuthOrBasic::Cookie(Some(v)) ==> forall|user: Seq<char>, password: Seq<char>|
            #![trigger session_value(user, password)]
            v@ == session_value(user, password) && !user.contains(':') ==> (r matches Ok(
                (u2, p2),
            ) && u2@ == user && p2@ == password),
{
    match auth {
        AuthOrBasic::Basic(u, p) => Ok((u, p)),
        AuthOrBasic::Cookie(value) => {
            let text = match value {
                Some(v) => v,
                None => owned(""),
            };
            proof {
                assert(text@ == cookie_text(value)) by {
                    if value is None {
                        reveal_strlit("");
                        assert(text@ =~= seq![]);
                    }
                }
            }
            let read = read_basic_header(text.as_str());
            proof {
                assert forall|user: Seq<char>, password: Seq<char>|
                    text@ == session_value(user, password) && !user.contains(
                        ':',
                    ) implies reads_as(read, user, password) by {
                    assert(text@ == basic_scheme_prefix() + basic_credentials_token(user, password));
                }
            }
            match read {
                Some((u, p)) => Ok((u, p)),
                None => Err(api_error(Status::Forbidden, "Try signing in again")),
            }
        },
    }
}

/// Why `check_auth` refuses a request, if it does: the account is unknown, the password
/// does not match the stored hash (or the hash cannot be read), the account has no
/// rights row, or its rights do not cover what the page asks for.
pub open spec fn auth_refusal(
    password: Seq<char>,
    user: Option<UserDB>,
    permissions: Option<PermissionsDB>,
    required: Option<Permissions>,
) -> Option<(Status, Seq<char>)> {
    match user {
        None => Some((Status::Forbidden, "Permission Denied"@)),
        Some(row) => if bcrypt_verify_result(password, row.password@) != Ok::<bool, Seq<char>>(
            true,
        ) {
            Some((Status::Forbidden, "Wrong password"@))
        } else {
            match permissions {
                None => Some((Status::Forbidden, "Not signed in, try again"@)),
                Some(p) => match required {
                    Some(req) => if User::from_rows_spec(row, permissions).permissions.grants(req) {
                        None
                    } else {
                        Some((Status::Forbidden, "Lacking required permissions"@))
                    },
                    None => None,
                },
            }
        },
    }
}

/// An account signs in with the password its hash was made from: when the account has a
/// rights row that covers what the page asks for, nothing refuses it, and a wrong password
/// is always refused.
pub proof fn lemma_own_password_signs_in(
    password: Seq<char>,
    row: UserDB,
    permissions: PermissionsDB,
    required: Option<Permissions>,
)
    requires
        required matches Some(req) ==> User::from_rows_spec(row, Some(permissions)).permissions.grants(req),
    ensures
        bcrypt_verify_result(password, row.password@) == Ok::<bool, Seq<char>>(true) ==> auth_refusal(
            password,
            Some(row),
            Some(permissions),
            required,
        ) is None,
        bcrypt_verify_result(password, row.password@) == Ok::<bool, Seq<char>>(false) ==> auth_refusal(
            password,
            Some(row),
            Some(permissions),
            required,
        ) == Some((Status::Forbidden, "Wrong password"@)),
{
}

/// The refusal for an account whose rights fall short.
pub fn lacking_permission() -> (e: ApiError)
    ensures
        e.status == Status::Forbidden,
        e.message@ == "Lacking required permissions"@,
{
    api_error(Status::Forbidden, "Lacking required permissions")
}

/// Decides a sign-in: `user` is the stored account with the presented name (if any),
/// `permissions` its rights row (if any), `password` the presented password and
/// `required` the rights that the page asks for. Answers the signed-in account, or the
/// refusal that `auth_refusal` names.
pub fn check_auth(
    password: &str,
    user: Option<UserDB>,
    permissions: Option<PermissionsDB>,
    required: Option<Permissions>,
) -> (r: Result<User, ApiError>)
    ensures
        match r {
            Ok(u) => {
                &&& auth_refusal(password@, user, permissions, required) is None
                &&& user matches Some(row) && u == User::from_rows_spec(row, permissions)
            },
            Err(e) => auth_refusal(password@, user, permissions, required) == Some(
                (e.status, e.message@),
            ),
        },
        // A stored password that is not a bcrypt hash, such as the empty one of an account
        // created without a password, lets no one in.
        (user matches Some(row) && row.password@.len() != 60) ==> r is Err,
{
    let row = match user {
        None => {
            return Err(api_error(Status::Forbidden, "Permission Denied"));
        },
        Some(row) => row,
    };
    let verified = match bcrypt_verify(password, row.password.as_str()) {
        Ok(b) => b,
        Err(_) => {
            return Err(api_error(Status::Forbidden, "Wrong password"));
        },
    };
    if !verified {
        return Err(api_error(Status::Forbidden, "Wrong password"));
    }
    if permissions.is_none() {
        return Err(api_error(Status::Forbidden, "Not signed in, try again"));
    }
    let account = User::from_rows(row, permissions);
    match required {
        Some(req) => {
            if !account.permissions.covers(&req) {
                return Err(lacking_permission());
            }
        },
        None => {},
    }
    Ok(account)
}

/// What a successful browser sign-in answers: the cookie to set and where to go next.
#[derive(Clone, Debug)]
pub struct SignInReply {
    pub set_cookie: String,
    pub location: String,
}

/// The answer to a successful sign-in of `user` with `password`: the session cookie
/// `Authorization=<Basic value>` and a redirect to the upload page.
pub fn sign_in_reply(user: &str, password: &str) -> (r: SignInReply)
    ensures
        r.set_cookie@ == AUTH_COOKIE@ + "="@ + session_value(user@, password@),
        r.location@ == "/upload"@,
{
    let value = basic_header(user, password);
    SignInReply { set_cookie: join3(AUTH_COOKIE, "=", value.as_str()), location: owned("/upload") }
}

/// Decides a sign-in from the form: `user` is the stored account named `username` (if
/// any) and `permissions` its rights row (if any). A sign-in that `check_auth` refuses is
/// refused the same way and sets no cookie; one that passes sets the session cookie for
/// `username` and `password` and leads to the upload page.
pub fn sign_in(
    username: &str,
    password: &str,
    user: Option<UserDB>,
    permissions: Option<PermissionsDB>,
) -> (r: Result<SignInReply, ApiError>)
    ensures
        match auth_refusal(password@, user, permissions, None) {
            Some(refusal) => r matches Err(e) && (e.status, e.message@) == refusal,
            None => r matches Ok(reply) && reply.set_cookie@ == AUTH_COOKIE@ + "="@
                + session_value(username@, password@) && reply.location@ == "/upload"@,
        },
{
    match check_auth(password, user, permissions, None) {
        Ok(_) => Ok(sign_in_reply(username, password)),
        Err(e) => Err(e),
    }
}


/// What a sign-in that nothing refuses has shown: the account exists, has a rights row,
/// the presented password is the one its stored hash was made from, and its row holds
/// every right the request asks for.
pub proof fn lemma_accepted_sign_in(
    password: Seq<char>,
    user: Option<UserDB>,
    permissions: Option<PermissionsDB>,
    required: Option<Permissions>,
)
    requires
        auth_refusal(password, user, permissions, required) is None,
    ensures
        user is Some,
        permissions is Some,
        bcrypt_verify_result(password, user.unwrap().password@) == Ok::<bool, Seq<char>>(true),
        required matches Some(q) ==> {
            let r = permissions.unwrap();
            &&& q.manage_users ==> r.manage_users
            &&& q.upload_files ==> r.upload_files
            &&& q.list_files ==> r.list_files
            &&& q.delete_files ==> r.delete_files
        },
{
}

/// A request that asks for nothing fails only on the account, the password or a missing
/// rights row: with the right password and a rights row, the account signs in.
pub proof fn lemma_right_password_signs_in(password: Seq<char>, row: UserDB, permissions: PermissionsDB)
    requires
        bcrypt_verify_result(password, row.password@) == Ok::<bool, Seq<char>>(true),
    ensures
        auth_refusal(password, Some(row), Some(permissions), None) is None,
        auth_refusal(password, Some(row), Some(permissions), Some(Permissions::spec_none())) is None,
{
}

} // verus!
