//! Credential hashing, which the `argon2` crate does.
//!
//! A credential is hashed under a salt that is drawn at random. The hash is
//! a function of the credential and the salt; which salt is drawn is not
//! known beforehand.

use vstd::prelude::*;

verus! {

/// What `Argon2::default().hash_password` makes of a text's bytes under the
/// salt that `SaltString::from_b64` reads from `salt`, taken as text with
/// `to_string`: the hash in its PHC form, or `None` where the salt or the
/// hashing is refused.
pub uninterp spec fn argon2_hashed(raw: Seq<char>, salt: Seq<char>) -> Option<Seq<char>>;

/// Whether `digest` is what hashing makes of `raw` under some salt.
pub open spec fn is_salted_hash(raw: Seq<char>, digest: Option<Seq<char>>) -> bool {
    exists|salt: Seq<char>| digest == #[trigger] argon2_hashed(raw, salt)
}

/// Calls `argon2::password_hash::SaltString::generate` on the operating
/// system's random source and takes the salt as text with `to_string`.
/// Nothing is claimed of the salt: it is random. `generate` panics where
/// the operating system hands out no random bytes.
#[verifier::external_body]
pub(crate) fn fresh_salt() -> (r: String) {
    argon2::password_hash::SaltString::generate(&mut argon2::password_hash::rand_core::OsRng)
        .to_string()
}

/// Calls `argon2::password_hash::SaltString::from_b64` on the salt, then
/// `Argon2::default().hash_password` on the text's bytes with it, and takes
/// the hash as text with `to_string`; `None` where either call fails.
/// Claimed: the result is a function of the text and the salt alone, named
/// `argon2_hashed`.
#[verifier::external_body]
pub(crate) fn argon2_hash(raw: &str, salt: &str) -> (r: Option<String>)
    ensures
        match r {
            Some(hash) => argon2_hashed(raw@, salt@) == Some(hash@),
            None => argon2_hashed(raw@, salt@) is None,
        },
{
    let hasher = argon2::Argon2::default();
    match argon2::password_hash::SaltString::from_b64(salt) {
        Ok(salt) => match argon2::PasswordHasher::hash_password(&hasher, raw.as_bytes(), &salt) {
            Ok(hashed) => Some(hashed.to_string()),
            Err(_) => None,
        },
        Err(_) => None,
    }
}

/// The hash of a text under a salt drawn now, or `None` where hashing
/// fails.
pub(crate) fn argon2_digest(raw: &str) -> (r: Option<String>)
    ensures
        match r {
            Some(hash) => is_salted_hash(raw@, Some(hash@)),
            None => is_salted_hash(raw@, None),
        },
{
    let salt: String = fresh_salt();
    argon2_hash(raw, salt.as_str())
}

} // verus!
