//! Password hashes, made and checked by the `bcrypt` crate.

use vstd::prelude::*;

verus! {

/// What `bcrypt::verify(password, hash)` returns, with an error given by its text:
/// whether `password` is the one that the stored bcrypt `hash` was made from.
pub uninterp spec fn bcrypt_verify_result(password: Seq<char>, hash: Seq<char>) -> Result<
    bool,
    Seq<char>,
>;

/// Calls `bcrypt::verify(password, hash)`. Claimed of it: its result is
/// `bcrypt_verify_result` of the two arguments (the error by its `Display` text), and a
/// `hash` that is not 60 characters long is refused with an error (the crate rejects
/// every hash that is not 60 ASCII bytes).
#[verifier::external_body]
pub(crate) fn bcrypt_verify(password: &str, hash: &str) -> (r: Result<bool, String>)
    ensures
        match r {
            Ok(b) => bcrypt_verify_result(password@, hash@) == Ok::<bool, Seq<char>>(b),
            Err(e) => bcrypt_verify_result(password@, hash@) == Err::<bool, Seq<char>>(e@),
        },
        hash@.len() != 60 ==> r is Err,
{
    bcrypt::verify(password, hash).map_err(|e| e.to_string())
}

/// Calls `bcrypt::hash(password, bcrypt::DEFAULT_COST)`, which salts with fresh
/// randomness; `None` when it fails (the crate fails only when the system gives no
/// randomness). Claimed of it: a hash it returns is 60 characters long and
/// `bcrypt::verify` accepts `password` against it (the crate checks a password by
/// hashing it again with the cost and salt written in the hash). What the hash is
/// beyond that depends on the random salt and is left unsaid.
#[verifier::external_body]
pub(crate) fn bcrypt_hash(password: &str) -> (r: Option<String>)
    ensures
        (r matches Some(h) ==> h@.len() == 60 && bcrypt_verify_result(password@, h@) == Ok::<
            bool,
            Seq<char>,
        >(true)),
{
    bcrypt::hash(password, bcrypt::DEFAULT_COST).ok()
}

/// A fresh hash of `password` to store, or `None` when no hash could be made (the
/// server stops there).
pub fn hash_password(password: &str) -> (r: Option<String>)
    ensures
        (r matches Some(h) ==> h@.len() == 60 && bcrypt_verify_result(password@, h@) == Ok::<
            bool,
            Seq<char>,
        >(true)),
{
    bcrypt_hash(password)
}

/// Whether `password` is the one behind the stored `hash`; an unreadable hash counts
/// as a mismatch.
pub fn password_accepted(password: &str, hash: &str) -> (r: bool)
    ensures
        r == (bcrypt_verify_result(password@, hash@) == Ok::<bool, Seq<char>>(true)),
{
    match bcrypt_verify(password, hash) {
        Ok(b) => b,
        Err(_) => false,
    }
}

} // verus!
