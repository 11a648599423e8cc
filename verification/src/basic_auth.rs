//! `Basic` authorization values, made and read by the `http_auth_basic` crate. The
//! browser sign-in keeps one of them in the session cookie.

use vstd::prelude::*;

verus! {

/// The text `"Basic "` that starts every `Basic` authorization value.
pub open spec fn basic_scheme_prefix() -> Seq<char> {
    seq!['B', 'a', 's', 'i', 'c', ' ']
}

/// The base64 text (standard alphabet, padded) that `Credentials::encode` makes of
/// `user`, a colon and `password`.
pub uninterp spec fn basic_credentials_token(user: Seq<char>, password: Seq<char>) -> Seq<char>;

/// What `Credentials::from_header(header)` reads from `header`: the user and the
/// password, or `None` when it returns an error.
pub uninterp spec fn basic_header_credentials(header: Seq<char>) -> Option<
    (Seq<char>, Seq<char>),
>;

/// Calls `Credentials::new(user, password).as_http_header()`. Claimed of it: the value is
/// `"Basic "` followed by `basic_credentials_token(user, password)`, as the crate's
/// `format!("Basic {}", ...)` writes it.
#[verifier::external_body]
pub(crate) fn basic_header(user: &str, password: &str) -> (r: String)
    ensures
        r@ == basic_scheme_prefix() + basic_credentials_token(user@, password@),
{
    http_auth_basic::Credentials::new(user, password).as_http_header()
}

/// The credentials read are `user` and `password`.
pub open spec fn reads_as(r: Option<(String, String)>, user: Seq<char>, password: Seq<char>) -> bool {
    r matches Some((u, p)) && u@ == user && p@ == password
}

/// Calls `Credentials::from_header(header)` and keeps the user and password. Claimed of
/// it: the result is `basic_header_credentials(header)`; a header without a space is
/// refused (the crate splits it at its first space); and a value made by
/// `basic_header(user, password)` is read back as `user` and `password` when `user` has
/// no colon (the scheme is `Basic`, the base64 token holds no space, it decodes to the
/// UTF-8 text `user:password`, and the crate splits that at its first colon).
#[verifier::external_body]
pub(crate) fn read_basic_header(header: &str) -> (r: Option<(String, String)>)
    ensures
        match r {
            Some((u, p)) => basic_header_credentials(header@) == Some((u@, p@)),
            None => basic_header_credentials(header@) is None,
        },
        (r is None || header@.contains(' ')),
        (forall|user: Seq<char>, password: Seq<char>| header@ == basic_scheme_prefix() + basic_credentials_token(user, password) && !user.contains(':') ==> reads_as(r, user, password)),
{
    match http_auth_basic::Credentials::from_header(header.to_string()) {
        Ok(c) => Some((c.user_id, c.password)),
        Err(_) => None,
    }
}

} // verus!
