//! Password hashing and checking with bcrypt.

use vstd::prelude::*;
use crate::error::{ExternalFailure, ExternalFailureView};

verus! {

/// What `bcrypt::verify` answers for a password and a stored hash: whether
/// the password matches, or the text of the error where the hash cannot be
/// read (or names a cost out of range).
pub uninterp spec fn bcrypt_verdict(password: Seq<char>, hash: Seq<char>) -> Result<bool, Seq<char>>;

/// The prefix of the hashes this library makes: bcrypt version `2b`, cost 12.
pub open spec fn hash_prefix() -> Seq<char> {
    "$2b$12$"@
}

/// `bcrypt::hash` at the default cost, 12. The salt is random, so the hash is
/// not named, and the call fails where the system's random source does.
/// Claims what the crate's source shows of a hash it returns: `verify`
/// accepts it for the same password (it reads back the cost and salt the hash
/// was made with), and it is 60 characters long, starting with `$2b$12$`
/// (`HashParts::format` writes version, cost, 22 characters of salt and 31
/// of hash).
#[verifier::external_body]
fn bcrypt_hash(password: &str) -> (r: Option<String>)
    ensures
        r matches Some(h) ==> ((bcrypt_verdict(password@, h@) matches Ok(true)) && h@.len() == 60
            && h@.subrange(0, 7) == hash_prefix()),
{
    bcrypt::hash(password, bcrypt::DEFAULT_COST).ok()
}

/// `bcrypt::verify`, with its error turned into the error's text. Claims that
/// the outcome is the crate's verdict.
#[verifier::external_body]
fn bcrypt_verify(password: &str, hash: &str) -> (r: Result<bool, String>)
    ensures
        match r {
            Ok(b) => bcrypt_verdict(password@, hash@) matches Ok(x) && x == b,
            Err(d) => bcrypt_verdict(password@, hash@) matches Err(e) && e == d@,
        },
{
    match bcrypt::verify(password, hash) {
        Ok(b) => Ok(b),
        Err(e) => Err(e.to_string()),
    }
}

/// Hashes a new password; a failure of the hashing is `PasswordHashing`.
/// A hash it returns verifies against the same password and has bcrypt's
/// form: 60 characters that start with `$2b$12$`.
pub fn hash_password(password: &str) -> (r: Result<String, ExternalFailure>)
    ensures
        match r {
            Ok(h) => (bcrypt_verdict(password@, h@) matches Ok(true)) && h@.len() == 60
                && h@.subrange(0, 7) == hash_prefix(),
            Err(f) => f@ == ExternalFailureView::PasswordHashing,
        },
{
    match bcrypt_hash(password) {
        Some(h) => Ok(h),
        None => Err(ExternalFailure::PasswordHashing),
    }
}

/// Checks a password against a stored hash; an unreadable hash is a
/// `PasswordVerification` failure that carries bcrypt's error text.
pub fn check_password(password: &str, hash: &str) -> (r: Result<bool, ExternalFailure>)
    ensures
        match r {
            Ok(b) => bcrypt_verdict(password@, hash@) matches Ok(x) && x == b,
            Err(f) => bcrypt_verdict(password@, hash@) matches Err(d) && f@
                == ExternalFailureView::PasswordVerification(d),
        },
{
    match bcrypt_verify(password, hash) {
        Ok(b) => Ok(b),
        Err(d) => Err(ExternalFailure::PasswordVerification(d)),
    }
}

/// Whether `h` is a hash this library makes of `password`: it verifies
/// against the password and is 60 characters starting with `$2b$12$`.
pub open spec fn is_hash_of(password: Seq<char>, h: Seq<char>) -> bool {
    &&& bcrypt_verdict(password, h) matches Ok(true)
    &&& h.len() == 60
    &&& h.subrange(0, 7) == hash_prefix()
}

/// One attempt at hashing a password with bcrypt: the password and the hash,
/// or no hash where bcrypt failed. Only `hash_attempt` makes one, so an
/// attempt without a hash always stands for a failure of bcrypt itself.
#[derive(Debug)]
pub struct HashAttempt {
    password: String,
    hash: Option<String>,
}

impl HashAttempt {
    /// The password that was hashed.
    pub closed spec fn password(self) -> Seq<char> {
        self.password@
    }

    /// The hash, where bcrypt made one.
    pub closed spec fn hash(self) -> Option<Seq<char>> {
        match self.hash {
            Some(h) => Some(h@),
            None => None,
        }
    }

    /// The attempt's outcome: the hash, or the `PasswordHashing` failure.
    pub fn result(&self) -> (r: Result<String, ExternalFailure>)
        ensures
            match r {
                Ok(h) => self.hash() == Some(h@),
                Err(f) => self.hash() is None && f@ == ExternalFailureView::PasswordHashing,
            },
    {
        match &self.hash {
            Some(h) => Ok(h.clone()),
            None => Err(ExternalFailure::PasswordHashing),
        }
    }
}

/// Hashes a password with bcrypt, keeping the password with the outcome.
/// A hash it makes is one of the password.
pub fn hash_attempt(password: &str) -> (a: HashAttempt)
    ensures
        a.password() == password@,
        a.hash() matches Some(h) ==> is_hash_of(password@, h),
{
    let hash = bcrypt_hash(password);
    HashAttempt { password: password.to_owned(), hash }
}

} // verus!
