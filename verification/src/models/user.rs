//! A registered user and the credential kept for them.

use vstd::prelude::*;
use crate::credential::{argon2_digest, argon2_hashed, is_salted_hash};
use crate::models::transaction::text_of;
use crate::identity::{fresh_id, is_fresh_id, now_rfc3339, parse_uuid, uuid_hyphenated, uuid_parsed, uuid_text};

verus! {

/// A credential: the raw text until it is hashed, the hash afterwards.
#[derive(Debug)]
pub struct Password {
    pub value: String,
}

/// What the outcome of hashing does to a credential: a hash takes the
/// place of the text, with success; without a hash the text stays, and the
/// answer is an error that says so.
pub open spec fn digest_stored(
    before: Seq<char>,
    digest: Option<Seq<char>>,
    after: Seq<char>,
    answer: Result<(), String>,
) -> bool {
    match digest {
        Some(hash) => answer is Ok && after == hash,
        None => answer is Err && answer->Err_0@ == "Error at hashing password"@ && after
            == before,
    }
}

impl Password {
    pub fn new(raw: String) -> (p: Password)
        ensures
            p.value@ == raw@,
    {
        Password { value: raw }
    }

    /// Puts the outcome of hashing in place: the hash replaces the raw
    /// text, and where there is none the credential stays as it was.
    pub fn store_digest(&mut self, digest: Option<String>) -> (r: Result<(), String>)
        ensures
            digest_stored(old(self).value@, text_of(digest), final(self).value@, r),
    {
        match digest {
            Some(hash) => {
                self.value = hash;
                Ok(())
            },
            None => Err("Error at hashing password".to_owned()),
        }
    }

    /// Replaces the raw text by its Argon2 hash under a salt drawn now.
    /// Where hashing fails the credential stays as it was, and the answer is
    /// an error that says so.
    pub fn get_hashed_value(&mut self) -> (r: Result<(), String>)
        ensures
            exists|salt: Seq<char>|
                digest_stored(
                    old(self).value@,
                    #[trigger] argon2_hashed(old(self).value@, salt),
                    final(self).value@,
                    r,
                ),
    {
        let digest: Option<String> = argon2_digest(self.value.as_str());
        self.store_digest(digest)
    }
}

/// A registered user.
#[derive(Debug)]
pub struct User {
    pub id: String,
    pub name: String,
    pub email: String,
    pub password: Password,
    pub created_at: String,
}

/// What a user record holds, as mathematical values.
pub struct UserView {
    pub id: Seq<char>,
    pub name: Seq<char>,
    pub email: Seq<char>,
    pub password: Seq<char>,
    pub created_at: Seq<char>,
}

impl View for User {
    type V = UserView;

    open spec fn view(&self) -> UserView {
        UserView {
            id: self.id@,
            name: self.name@,
            email: self.email@,
            password: self.password.value@,
            created_at: self.created_at@,
        }
    }
}

impl User {
    /// The user record for a credential whose hashing has been tried:
    /// `digest` is `None` where it failed.
    pub fn enrolled(
        id: String,
        created_at: String,
        name: String,
        email: String,
        digest: Option<String>,
    ) -> (r: Result<User, String>)
        ensures
            match digest {
                Some(hash) => r is Ok && r->Ok_0@ == (UserView {
                    id: id@,
                    name: name@,
                    email: email@,
                    password: hash@,
                    created_at: created_at@,
                }),
                None => r is Err && r->Err_0@ == "Error at hashing password"@,
            },
    {
        match digest {
            Some(hash) => Ok(User { id, name, email, password: Password::new(hash), created_at }),
            None => Err("Error at hashing password".to_owned()),
        }
    }

    /// A new user under a random identifier, created now, whose credential
    /// is kept as its Argon2 hash under a salt drawn now. Where hashing
    /// fails there is no user.
    pub fn new(name: String, email: String, raw_password: String) -> (r: Result<User, String>)
        ensures
            match r {
                Ok(user) => is_fresh_id(user@.id) && user@.name == name@ && user@.email == email@
                    && is_salted_hash(raw_password@, Some(user@.password)),
                Err(reason) => reason@ == "Error at hashing password"@ && is_salted_hash(
                    raw_password@,
                    None,
                ),
            },
    {
        let id: String = fresh_id();
        let created_at: String = now_rfc3339();
        let digest: Option<String> = argon2_digest(raw_password.as_str());
        User::enrolled(id, created_at, name, email, digest)
    }

    /// The user record for a stored row whose identifier has been read
    /// already: `canonical_id` is its hyphenated form, `None` where the
    /// stored identifier was malformed.
    pub fn restored(
        canonical_id: Option<String>,
        name: String,
        email: String,
        password: String,
        created_at: String,
    ) -> (r: Result<User, String>)
        ensures
            match canonical_id {
                Some(id) => r is Ok && r->Ok_0@ == (UserView {
                    id: id@,
                    name: name@,
                    email: email@,
                    password: password@,
                    created_at: created_at@,
                }),
                None => r is Err && r->Err_0@ == "Failed to parse user_id as UUID"@,
            },
    {
        match canonical_id {
            Some(id) => Ok(User { id, name, email, password: Password::new(password), created_at }),
            None => Err("Failed to parse user_id as UUID".to_owned()),
        }
    }

    /// The user record that a stored row describes. The identifier is
    /// brought into its hyphenated form; a malformed one is refused.
    pub fn from_db(id: String, name: String, email: String, password: String, created_at: String) -> (r:
        Result<User, String>)
        ensures
            match uuid_parsed(id@) {
                Some(value) => r is Ok && r->Ok_0@ == (UserView {
                    id: uuid_hyphenated(value),
                    name: name@,
                    email: email@,
                    password: password@,
                    created_at: created_at@,
                }),
                None => r is Err && r->Err_0@ == "Failed to parse user_id as UUID"@,
            },
    {
        let canonical_id: Option<String> = match parse_uuid(id.as_str()) {
            Some(value) => Some(uuid_text(value)),
            None => None,
        };
        User::restored(canonical_id, name, email, password, created_at)
    }
}

} // verus!
