//! Passwords: hashing a new one, and checking one against a stored hash.

use argon2::password_hash::rand_core::OsRng;
use argon2::password_hash::{PasswordHash, PasswordHasher, PasswordVerifier, Salt, SaltString};
use argon2::Argon2;
use vstd::prelude::*;
use vstd::string::StringExecFns;

verus! {

/// What keeps `hashed` from being read as a password hash: the error that
/// `PasswordHash::new` gives for it, in its debug form; nothing if it reads.
pub uninterp spec fn hash_fault(hashed: Seq<char>) -> Option<Seq<char>>;

/// What keeps `password` from matching the readable hash `hashed`: the
/// error that Argon2, as configured by default, gives when it verifies the
/// one against the other, in its debug form; nothing if they match.
pub uninterp spec fn password_fault(password: Seq<char>, hashed: Seq<char>) -> Option<Seq<char>>;

/// The characters of a text that may be absent.
pub open spec fn text_of(text: Option<String>) -> Option<Seq<char>> {
    match text {
        Some(s) => Some(s@),
        None => None,
    }
}

/// `PasswordHash::new`: parses a hash in the PHC string format. Its error,
/// if any, is `hash_fault` of the text.
#[verifier::external_body]
fn read_hash(hashed: &str) -> (fault: Option<String>)
    ensures
        text_of(fault) == hash_fault(hashed@),
{
    PasswordHash::new(hashed).err().map(|e| format!("{:?}", e))
}

/// `Argon2::verify_password` with the default configuration, on a hash
/// that reads: computes the hash of the password with the salt and the
/// parameters of the stored hash and compares. Its error, if any, is
/// `password_fault` of the two.
#[verifier::external_body]
fn check_password(password: &str, hashed: &str) -> (fault: Option<String>)
    requires
        hash_fault(hashed@) is None,
    ensures
        text_of(fault) == password_fault(password@, hashed@),
{
    match PasswordHash::new(hashed) {
        Ok(hash) => Argon2::default().verify_password(password.as_bytes(), &hash).err().map(
            |e| format!("{:?}", e),
        ),
        Err(e) => Some(format!("{:?}", e)),
    }
}

/// What hashing `password` under the salt `salt` gives: the hash that
/// Argon2, as configured by default, computes for the two, in the PHC string
/// format, or the error that it or the reading of the salt gives, in its
/// debug form.
pub uninterp spec fn salted_hash(password: Seq<char>, salt: Seq<char>) -> Result<
    Seq<char>,
    Seq<char>,
>;

/// The characters of a hash or of a fault.
pub open spec fn outcome_text(outcome: Result<String, String>) -> Result<Seq<char>, Seq<char>> {
    match outcome {
        Ok(hashed) => Ok(hashed@),
        Err(fault) => Err(fault@),
    }
}

/// `SaltString::generate` with the operating system's random numbers: the
/// text of a new salt. Nothing is claimed of it. It panics where the
/// operating system gives no random numbers.
#[verifier::external_body]
fn fresh_salt() -> (salt: String) {
    SaltString::generate(&mut OsRng).as_str().to_owned()
}

/// `Argon2::hash_password` with the default configuration, under the salt
/// that `salt` reads as. The hash, or the error, is `salted_hash` of the
/// two.
#[verifier::external_body]
fn hash_with(password: &str, salt: &str) -> (hashed: Result<String, String>)
    ensures
        outcome_text(hashed) == salted_hash(password@, salt@),
{
    match Salt::from_b64(salt) {
        Ok(salt) => Argon2::default().hash_password(password.as_bytes(), salt).map(
            |hash| hash.to_string(),
        ).map_err(|e| format!("{:?}", e)),
        Err(e) => Err(format!("{:?}", e)),
    }
}

/// `prefix`, then `text`.
fn prefixed(prefix: &str, text: String) -> (line: String)
    ensures
        line@ == prefix@ + text@,
{
    let mut line = String::from_str(prefix);
    line.append(text.as_str());
    line
}

/// What hashing a password came to: the hash, or the error under its
/// heading.
pub fn hashing_outcome(outcome: Result<String, String>) -> (r: Result<String, String>)
    ensures
        match outcome {
            Ok(hashed) => r == Ok::<String, String>(hashed),
            Err(fault) => r matches Err(e) && e@ == "Error hashing password: "@ + fault@,
        },
{
    match outcome {
        Ok(hashed) => Ok(hashed),
        Err(fault) => Err(prefixed("Error hashing password: ", fault)),
    }
}

/// What `hash_password` returns where the salt is `salt`: the hash of the
/// password under that salt, or the error under its heading.
pub open spec fn hashing(password: Seq<char>, salt: Seq<char>) -> Result<Seq<char>, Seq<char>> {
    match salted_hash(password, salt) {
        Ok(hashed) => Ok(hashed),
        Err(fault) => Err("Error hashing password: "@ + fault),
    }
}

/// Hashes `password` with Argon2 under a new random salt: what is returned
/// is the hash of this password under some salt, or the error of hashing
/// it. Which salt it is, is not known before; two calls on one password give
/// different hashes.
pub fn hash_password(password: &str) -> (r: Result<String, String>)
    ensures
        exists|salt: Seq<char>| outcome_text(r) == hashing(password@, salt),
{
    let salt = fresh_salt();
    let outcome = hash_with(password, salt.as_str());
    let r = hashing_outcome(outcome);
    assert(outcome_text(r) == hashing(password@, salt@));
    r
}

/// What a stored hash that cannot be read comes to.
pub fn unreadable_hash(fault: String) -> (r: Result<bool, String>)
    ensures
        r matches Err(e) && e@ == "Error processing hashed password: "@ + fault@,
{
    Err(prefixed("Error processing hashed password: ", fault))
}

/// What checking a password against a readable hash came to: a match, or
/// the error under its heading. A password that does not match is an error,
/// never `Ok(false)`.
pub fn password_verdict(fault: Option<String>) -> (r: Result<bool, String>)
    ensures
        match fault {
            None => r == Ok::<bool, String>(true),
            Some(text) => r matches Err(e) && e@ == "Error validating password: "@ + text@,
        },
{
    match fault {
        None => Ok(true),
        Some(text) => Err(prefixed("Error validating password: ", text)),
    }
}

/// What `validate_password` returns.
pub open spec fn validation(password: Seq<char>, hashed: Seq<char>) -> Result<bool, Seq<char>> {
    match hash_fault(hashed) {
        Some(fault) => Err("Error processing hashed password: "@ + fault),
        None => match password_fault(password, hashed) {
            Some(fault) => Err("Error validating password: "@ + fault),
            None => Ok(true),
        },
    }
}

/// Checks `password` against the stored hash `hashed`.
pub fn validate_password(password: &str, hashed: &str) -> (r: Result<bool, String>)
    ensures
        match r {
            Ok(matches) => validation(password@, hashed@) == Ok::<bool, Seq<char>>(matches),
            Err(e) => validation(password@, hashed@) == Err::<bool, Seq<char>>(e@),
        },
{
    match read_hash(hashed) {
        Some(fault) => unreadable_hash(fault),
        None => password_verdict(check_password(password, hashed)),
    }
}

} // verus!
