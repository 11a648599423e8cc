//! Bearer tokens for the JSON API: what a token claims, who gets one, and how a request's
//! `Authorization` header is read (the signing and checking of tokens themselves is done by
//! `jsonwebtoken` in the application).

use vstd::prelude::*;
use crate::clock::{latest_time, unix_now};
use crate::models::User;
use crate::password::{bcrypt_verify, bcrypt_verify_result};
use crate::status::{api_error, ApiError, Status};
use crate::text::{second_word, second_word_of};

verus! {

/// How long a token stays valid: four weeks, in seconds.
pub const TOKEN_LIFETIME: i64 = 2_419_200;

/// What a token claims: when it expires, when it was issued (seconds since the Unix
/// epoch) and for which account.
#[derive(Clone, Debug)]
pub struct Claims {
    pub exp: usize,
    pub iat: usize,
    pub username: String,
}

/// The body of a token request.
#[derive(Clone, Debug)]
pub struct SignInData {
    pub username: String,
    pub password: String,
}

/// The body of the answer to a token request.
#[derive(Clone, Debug)]
pub struct TokenResponse {
    pub token: String,
}

/// The claims of a token for `username` issued at `now`: it expires four weeks later.
/// The times are stored as `usize`, as `timestamp() as usize` stores them.
pub fn claims_at(username: String, now: i64) -> (c: Claims)
    requires
        now + TOKEN_LIFETIME <= i64::MAX,
    ensures
        c.iat == now as usize,
        c.exp == (now + TOKEN_LIFETIME) as usize,
        c.username == username,
{
    let exp = now + TOKEN_LIFETIME;
    Claims { exp: exp as usize, iat: now as usize, username }
}

/// The times of `c` are those of a token issued at `now`.
pub open spec fn issued_at(c: Claims, now: i64) -> bool {
    c.iat == now as usize && c.exp == (now + TOKEN_LIFETIME) as usize
}

/// The claims of a token for `username` issued now; `None` when the clock cannot be read
/// (it is set before the Unix epoch or past the last time that can be held).
pub fn issue_claims(username: String) -> (c: Option<Claims>)
    ensures
        (c matches Some(claims) ==> claims.username == username && exists|now: i64|
            0 <= now <= latest_time() && #[trigger] issued_at(claims, now)),
{
    match unix_now() {
        Some(now) => {
            let c = claims_at(username, now);
            assert(issued_at(c, now));
            Some(c)
        },
        None => None,
    }
}

/// Decides a token request: `user` is the account with the requested name (if any).
/// Unknown accounts and wrong passwords get `401`, an unreadable stored hash `500`;
/// otherwise the answer is the name to issue the token for.
pub fn request_token(user: Option<User>, password: &str) -> (r: Result<String, Status>)
    ensures
        match user {
            None => r == Err::<String, Status>(Status::Unauthorized),
            Some(u) => match bcrypt_verify_result(password@, u.password@) {
                Ok(true) => r matches Ok(name) && name == u.username,
                Ok(false) => r == Err::<String, Status>(Status::Unauthorized),
                Err(_) => r == Err::<String, Status>(Status::InternalServerError),
            },
        },
        (user matches Some(u) && u.password@.len() != 60) ==> r == Err::<String, Status>(
            Status::InternalServerError,
        ),
{
    let u = match user {
        None => {
            return Err(Status::Unauthorized);
        },
        Some(u) => u,
    };
    match bcrypt_verify(password, u.password.as_str()) {
        Err(_) => Err(Status::InternalServerError),
        Ok(false) => Err(Status::Unauthorized),
        Ok(true) => Ok(u.username),
    }
}

/// What a request's `Authorization` header holds: nothing, bytes that are not visible
/// ASCII, or text.
#[derive(Clone, Debug)]
pub enum HeaderInput {
    Missing,
    Unreadable,
    Text(String),
}

/// The token that the `Authorization` header carries: its second whitespace-separated
/// word (the first is the scheme, `Bearer`, which is not looked at).
pub fn authorization_token(header: HeaderInput) -> (r: Result<String, ApiError>)
    ensures
        match header {
            HeaderInput::Missing => r matches Err(e) && e.status == Status::Forbidden
                && e.message@ == "Please add the JWT token to the header"@,
            HeaderInput::Unreadable => r matches Err(e) && e.status == Status::Forbidden
                && e.message@ == "Empty header is not allowed"@,
            HeaderInput::Text(t) => match second_word(t@) {
                Some(w) => r matches Ok(token) && token@ == w,
                None => r matches Err(e) && e.status == Status::InternalServerError
                    && e.message@ == "Token cannot be parsed"@,
            },
        },
{
    match header {
        HeaderInput::Missing => Err(
            api_error(Status::Forbidden, "Please add the JWT token to the header"),
        ),
        HeaderInput::Unreadable => Err(api_error(Status::Forbidden, "Empty header is not allowed")),
        HeaderInput::Text(t) => match second_word_of(t.as_str()) {
            Some(w) => Ok(w),
            None => Err(api_error(Status::InternalServerError, "Token cannot be parsed")),
        },
    }
}

/// The account name that a checked token claims; a token that could not be checked is
/// refused with `401 Unable to decode token`.
pub fn token_username(decoded: Option<Claims>) -> (r: Result<String, ApiError>)
    ensures
        match decoded {
            Some(c) => r matches Ok(name) && name == c.username,
            None => r matches Err(e) && e.status == Status::Unauthorized && e.message@
                == "Unable to decode token"@,
        },
{
    match decoded {
        Some(c) => Ok(c.username),
        None => Err(api_error(Status::Unauthorized, "Unable to decode token")),
    }
}

/// The account that a checked token stands for, or `403 You are not an authorized user`
/// when no account has the claimed name.
pub fn token_account(user: Option<User>) -> (r: Result<User, ApiError>)
    ensures
        match user {
            Some(u) => r matches Ok(v) && v == u,
            None => r matches Err(e) && e.status == Status::Forbidden && e.message@
                == "You are not an authorized user"@,
        },
{
    match user {
        Some(u) => Ok(u),
        None => Err(api_error(Status::Forbidden, "You are not an authorized user")),
    }
}

} // verus!
