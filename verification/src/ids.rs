//! Random identifiers, made by the `uuid` crate.

use vstd::prelude::*;

verus! {

/// `c` is a lowercase hexadecimal digit.
pub open spec fn is_lower_hex(c: char) -> bool {
    ('0' <= c && c <= '9') || ('a' <= c && c <= 'f')
}

/// Text in the form that `Uuid`'s `Display` writes: 36 characters, each a lowercase
/// hexadecimal digit or a hyphen.
pub open spec fn is_uuid_text(s: Seq<char>) -> bool {
    &&& s.len() == 36
    &&& forall|i: int| 0 <= i < s.len() ==> (#[trigger] s[i] == '-' || is_lower_hex(s[i]))
}

/// Draws 16 bytes from the system with `getrandom::fill` and makes them a version 4
/// identifier with `uuid::Builder::from_random_bytes(..).into_uuid().to_string()` (what
/// `Uuid::new_v4` does, without its panic when the system gives no randomness); `None`
/// when `getrandom::fill` fails. Claimed of it: the text is 36 characters of lowercase
/// hexadecimal digits and hyphens (the crate's `Display` writes the hyphenated lowercase
/// form). Which identifier comes out is random and left unsaid.
#[verifier::external_body]
pub(crate) fn random_uuid() -> (r: Option<String>)
    ensures
        (r matches Some(id) ==> is_uuid_text(id@)),
{
    let mut bytes = [0u8; 16];
    match getrandom::fill(&mut bytes) {
        Ok(()) => Some(uuid::Builder::from_random_bytes(bytes).into_uuid().to_string()),
        Err(_) => None,
    }
}

} // verus!
