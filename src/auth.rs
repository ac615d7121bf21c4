//! Accounts: salted memory-hard password hashes, registration and login.
use vstd::prelude::*;
use vstd::utf8::encode_utf8;

use argon2::password_hash::rand_core::{OsRng, RngCore};
use argon2::password_hash::{PasswordHash, PasswordHasher, PasswordVerifier, Salt, SaltString};
use argon2::Argon2;

use crate::outcome::Outcome;

verus! {

#[verifier::external_type_specification]
#[verifier::external_body]
pub struct ExPasswordHashError(argon2::password_hash::Error);

/// The PHC string that Argon2id with its default parameters gives for a
/// password and a B64 salt, or `None` where it fails (a salt that is not
/// valid B64 of a usable length).
pub uninterp spec fn argon2_phc(password: Seq<char>, salt: Seq<char>) -> Option<Seq<char>>;

/// Whether Argon2 accepts `password` against the PHC string `stored`
/// (`false` where `stored` does not parse).
pub uninterp spec fn argon2_accepts(password: Seq<char>, stored: Seq<char>) -> bool;

/// The B64 salt string (unpadded standard Base64) that encodes `bytes`.
pub uninterp spec fn b64_salt_of(bytes: Seq<u8>) -> Seq<char>;

/// The shape of a generated salt: the encoding of 16 bytes.
pub open spec fn is_generated_salt(s: Seq<char>) -> bool {
    exists|bytes: Seq<u8>| bytes.len() == 16 && #[trigger] b64_salt_of(bytes) == s
}

/// Relies on `RngCore::try_fill_bytes` of the operating system's generator:
/// fills `buf` in place with random bytes, or reports that the operating
/// system could not give them. Nothing is known of the bytes.
#[verifier::external_body]
fn fill_random(buf: &mut Vec<u8>) -> (r: bool)
    ensures
        final(buf)@.len() == old(buf)@.len(),
{
    OsRng.try_fill_bytes(buf.as_mut_slice()).is_ok()
}

/// Relies on `SaltString::encode_b64`: the B64 encoding of `bytes`, which
/// fits the 64-character salt buffer whenever there are 16 bytes.
#[verifier::external_body]
fn encode_salt(bytes: &Vec<u8>) -> (r: Result<String, argon2::password_hash::Error>)
    ensures
        r matches Ok(s) ==> s@ == b64_salt_of(bytes@),
        bytes@.len() == 16 ==> r is Ok,
{
    Ok(SaltString::encode_b64(bytes.as_slice())?.as_str().to_string())
}

/// Relies on `Argon2::hash_password` (default parameters, no secret): the
/// result depends on the password and the salt alone. `Salt::from_b64` reads
/// the salt. It fails only on a password over `u32::MAX` bytes or a salt
/// that does not decode to a length Argon2 accepts, so never on the
/// encoding of 16 bytes.
#[verifier::external_body]
fn argon2_hash(password: &str, salt: &str) -> (r: Result<String, argon2::password_hash::Error>)
    ensures
        match r {
            Ok(h) => argon2_phc(password@, salt@) == Some(h@),
            Err(_) => argon2_phc(password@, salt@) is None,
        },
        is_generated_salt(salt@) && encode_utf8(password@).len() <= u32::MAX ==> r is Ok,
{
    let salt = Salt::from_b64(salt)?;
    Ok(Argon2::default().hash_password(password.as_bytes(), salt)?.to_string())
}

/// Relies on `PasswordHash::new` to read a stored PHC string and on
/// `Argon2::verify_password`, which recomputes the hash with the stored
/// parameters and compares in constant time. A PHC string that hashing
/// gave for this password, under any salt, is accepted.
#[verifier::external_body]
fn argon2_verify(password: &str, stored: &str) -> (r: bool)
    ensures
        r == argon2_accepts(password@, stored@),
        forall|salt: Seq<char>| argon2_phc(password@, salt) == Some(stored@) ==> r,
{
    match PasswordHash::new(stored) {
        Ok(parsed) => Argon2::default().verify_password(password.as_bytes(), &parsed).is_ok(),
        Err(_) => false,
    }
}

/// The hashing primitive failed.
#[derive(Clone, Copy, Debug, PartialEq, Eq, Structural)]
pub struct HashError;

/// Why the user store could not do what was asked.
#[derive(Clone, Copy, Debug, PartialEq, Eq, Structural)]
pub enum StoreError {
    /// The username is taken.
    Conflict,
    /// Any other persistence failure.
    Other,
}

/// A password hash in PHC form and the salt it was made with.
pub struct HashedCredential {
    pub hash: String,
    pub salt: String,
}

/// Query of the registration endpoint.
pub struct RegisterParams {
    pub username: String,
    pub email: String,
    pub password: String,
}

/// Query of the login endpoint.
pub struct LoginParams {
    pub username: String,
    pub password: String,
}

/// A user row to insert.
pub struct NewUser {
    pub username: String,
    pub email: String,
    pub password_hash: String,
    pub salt: String,
}

/// A stored user row.
pub struct UserRecord {
    pub id: i32,
    pub username: String,
    pub email: String,
    pub password_hash: String,
    pub salt: String,
}

/// Hashes `password` under `salt`; fails exactly where Argon2 refuses them,
/// never for a generated salt and a password of at most `u32::MAX` bytes.
pub fn hash_with_salt(password: &str, salt: String) -> (r: Result<HashedCredential, HashError>)
    ensures
        match r {
            Ok(c) => c.salt@ == salt@ && argon2_phc(password@, salt@) == Some(c.hash@),
            Err(_) => argon2_phc(password@, salt@) is None,
        },
        is_generated_salt(salt@) && encode_utf8(password@).len() <= u32::MAX ==> r is Ok,
{
    match argon2_hash(password, salt.as_str()) {
        Ok(hash) => Ok(HashedCredential { hash, salt }),
        Err(_) => Err(HashError),
    }
}

/// A fresh salt: 16 bytes from the operating system's generator, encoded.
/// `None` where the generator failed.
pub fn draw_salt() -> (r: Option<String>)
    ensures
        r matches Some(s) ==> is_generated_salt(s@),
{
    let mut bytes: Vec<u8> = vec![0u8; 16];
    if !fill_random(&mut bytes) {
        return None;
    }
    match encode_salt(&bytes) {
        Ok(salt) => {
            assert(b64_salt_of(bytes@) == salt@);
            Some(salt)
        },
        Err(_) => None,
    }
}

/// Hashes `password` under a fresh random salt. It fails where the
/// operating system could not give random bytes, or where Argon2 refused
/// the password (over `u32::MAX` bytes) under the salt that was drawn.
pub fn hash_password(password: &str) -> (r: Result<HashedCredential, HashError>)
    ensures
        r matches Ok(c) ==> is_generated_salt(c.salt@) && argon2_phc(password@, c.salt@) == Some(
            c.hash@,
        ),
{
    match draw_salt() {
        Some(salt) => hash_with_salt(password, salt),
        None => Err(HashError),
    }
}

/// Whether `password` matches the stored hash, by the algorithm's own check.
/// A hash that `hash_password` made of the same password always matches.
pub fn check_password(password: &str, stored_hash: &str) -> (r: bool)
    ensures
        r == argon2_accepts(password@, stored_hash@),
        forall|salt: Seq<char>| argon2_phc(password@, salt) == Some(stored_hash@) ==> r,
{
    argon2_verify(password, stored_hash)
}

/// The reply when hashing fails during registration.
pub open spec fn hash_failed() -> (u16, Seq<char>) {
    (500, "Failed to hash password"@)
}

/// The reply once the store has answered a registration.
pub open spec fn registered(username: Seq<char>, stored: bool) -> (u16, Seq<char>) {
    if stored {
        (200, "User "@ + username + ", registered"@)
    } else {
        (500, "Failed to register user"@)
    }
}

/// The reply to a login, from what the lookup gave: a store failure, no
/// such user, or a user whose stored hash does or does not accept the
/// password.
pub open spec fn logged_in(username: Seq<char>, check: Result<Option<bool>, StoreError>) -> (
    u16,
    Seq<char>,
) {
    match check {
        Err(_) => (500, "Failed to fetch user"@),
        Ok(None) => (401, "Invalid username or password"@),
        Ok(Some(false)) => (401, "Invalid username or password"@),
        Ok(Some(true)) => (200, "User "@ + username + " logged in"@),
    }
}

/// What a lookup says of `password`: the store's error, no user, or
/// whether the user's stored hash accepts it.
pub open spec fn password_check(
    password: Seq<char>,
    lookup: Result<Option<UserRecord>, StoreError>,
) -> Result<Option<bool>, StoreError> {
    match lookup {
        Err(e) => Err(e),
        Ok(None) => Ok(None),
        Ok(Some(u)) => Ok(Some(argon2_accepts(password, u.password_hash@))),
    }
}

/// The row to insert for a registration, given the outcome of hashing its
/// password; an internal error where hashing failed.
pub fn new_user(params: &RegisterParams, hashed: Result<HashedCredential, HashError>) -> (r:
    Result<NewUser, Outcome>)
    ensures
        match hashed {
            Ok(c) => r matches Ok(u) && u.username@ == params.username@ && u.email@
                == params.email@ && u.password_hash@ == c.hash@ && u.salt@ == c.salt@,
            Err(_) => r matches Err(o) && o@ == hash_failed(),
        },
{
    match hashed {
        Ok(c) => Ok(
            NewUser {
                username: params.username.clone(),
                email: params.email.clone(),
                password_hash: c.hash,
                salt: c.salt,
            },
        ),
        Err(_) => Err(Outcome::InternalError(String::from_str("Failed to hash password"))),
    }
}

/// The row to insert for a registration, its password hashed under `salt`;
/// the reply for a failed hash exactly where Argon2 refuses them.
pub fn register_with_salt(params: &RegisterParams, salt: String) -> (r: Result<NewUser, Outcome>)
    ensures
        match r {
            Ok(u) => u.username@ == params.username@ && u.email@ == params.email@ && u.salt@
                == salt@ && argon2_phc(params.password@, salt@) == Some(u.password_hash@),
            Err(o) => o@ == hash_failed() && argon2_phc(params.password@, salt@) is None,
        },
        is_generated_salt(salt@) && encode_utf8(params.password@).len() <= u32::MAX
            ==> r is Ok,
{
    new_user(params, hash_with_salt(params.password.as_str(), salt))
}

/// First step of a registration: hashes the password under a fresh salt and
/// gives the row to insert, or the reply for a failed hash where the
/// operating system could not give random bytes or Argon2 refused the
/// password under the salt that was drawn.
pub fn register_start(params: &RegisterParams) -> (r: Result<NewUser, Outcome>)
    ensures
        match r {
            Ok(u) => u.username@ == params.username@ && u.email@ == params.email@
                && is_generated_salt(u.salt@) && argon2_phc(params.password@, u.salt@) == Some(
                u.password_hash@,
            ),
            Err(o) => o@ == hash_failed(),
        },
{
    match draw_salt() {
        Some(salt) => register_with_salt(params, salt),
        None => Err(Outcome::InternalError(String::from_str("Failed to hash password"))),
    }
}

/// Last step of a registration: the reply once the store has answered. A
/// taken username and any other store failure get the same reply.
pub fn register_reply(username: &str, stored: Result<(), StoreError>) -> (r: Outcome)
    ensures
        r@ == registered(username@, stored is Ok),
{
    match stored {
        Ok(()) => {
            let mut m = String::from_str("User ");
            m.append(username);
            m.append(", registered");
            Outcome::Success(m)
        },
        Err(_) => Outcome::InternalError(String::from_str("Failed to register user")),
    }
}

/// The reply to a login from the result of the lookup and the password
/// check: `Some(matches)` where the user exists.
pub fn login_reply(username: &str, check: Result<Option<bool>, StoreError>) -> (r: Outcome)
    ensures
        r@ == logged_in(username@, check),
{
    match check {
        Err(_) => Outcome::InternalError(String::from_str("Failed to fetch user")),
        Ok(Some(true)) => {
            let mut m = String::from_str("User ");
            m.append(username);
            m.append(" logged in");
            Outcome::Success(m)
        },
        Ok(_) => Outcome::Unauthorized(String::from_str("Invalid username or password")),
    }
}

/// A login, given what the store found under the username: checks the
/// password against the stored hash and replies.
pub fn login(params: &LoginParams, lookup: Result<Option<UserRecord>, StoreError>) -> (r: Outcome)
    ensures
        r@ == logged_in(params.username@, password_check(params.password@, lookup)),
        match lookup {
            Ok(Some(u)) => (exists|salt: Seq<char>|
                argon2_phc(params.password@, salt) == Some(u.password_hash@)) ==> r@.0 == 200,
            _ => true,
        },
{
    let check = match lookup {
        Err(e) => Err(e),
        Ok(None) => Ok(None),
        Ok(Some(u)) => Ok(
            Some(check_password(params.password.as_str(), u.password_hash.as_str())),
        ),
    };
    login_reply(params.username.as_str(), check)
}

/// An unknown username and a wrong password get the same reply, status 401,
/// so that the reply does not tell which usernames exist.
pub proof fn lemma_login_failures_alike(username: Seq<char>)
    ensures
        logged_in(username, Ok(None)) == logged_in(username, Ok(Some(false))),
        logged_in(username, Ok(None)).0 == 401,
{
}

} // verus!
