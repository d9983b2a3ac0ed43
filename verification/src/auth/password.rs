//! Password hashing and verification with Argon2.
//!
//! A stored hash is a PHC string: it names the algorithm, its cost
//! parameters and the salt next to the derived output, so checking a
//! password needs nothing but the password and the stored string.

use vstd::prelude::*;
use vstd::utf8::encode_utf8;
use argon2::password_hash::{PasswordHash, PasswordHasher, PasswordVerifier, SaltString};
use argon2::password_hash::rand_core::OsRng;
use argon2::Argon2;
use crate::error::{AppError, AppErrorView};
use crate::text::{prefixed, starts_with};

verus! {

/// Declares `argon2::password_hash::Error`, the error of the hashing
/// primitive. Nothing is known of a value of it; it is only handed on.
#[verifier::external_type_specification]
#[verifier::external_body]
pub struct ExPasswordHashError(argon2::password_hash::Error);

/// The PHC string that Argon2 with its default parameters derives from a
/// password and a salt in B64 text, or `None` where it refuses the pair.
pub uninterp spec fn argon2_encoded(password: Seq<u8>, salt: Seq<char>) -> Option<Seq<char>>;

/// Whether a text parses as a PHC string.
pub uninterp spec fn phc_parses(encoded: Seq<char>) -> bool;

/// Whether Argon2, run with the parameters and salt that a PHC string
/// carries, derives from the password the output that the string carries.
pub uninterp spec fn argon2_accepts(password: Seq<u8>, encoded: Seq<char>) -> bool;

/// What checking `password` against the stored text `encoded` comes to:
/// `None` where the stored text is no PHC string, else whether the
/// password is the one that was hashed.
pub open spec fn password_check(password: Seq<char>, encoded: Seq<char>) -> Option<bool> {
    if phc_parses(encoded) {
        Some(argon2_accepts(encode_utf8(password), encoded))
    } else {
        None
    }
}

/// `encoded` came out of hashing `password` under `salt`: it is the PHC
/// string Argon2 derives from the two, it parses, and Argon2 accepts the
/// password against it.
pub open spec fn hashed(password: Seq<char>, salt: Seq<char>, encoded: Seq<char>) -> bool {
    &&& argon2_encoded(encode_utf8(password), salt) == Some(encoded)
    &&& phc_parses(encoded)
    &&& argon2_accepts(encode_utf8(password), encoded)
}

/// `encoded` is what hashing `password` gives under some salt.
pub open spec fn is_hash_of(password: Seq<char>, encoded: Seq<char>) -> bool {
    exists|salt: Seq<char>| #[trigger] hashed(password, salt, encoded)
}

/// `outcome` is what hashing `password` under `salt` gives, failure
/// included: the derived string where Argon2 derives one, an error where
/// it refuses the pair.
pub open spec fn hashing_result(password: Seq<char>, salt: Seq<char>, outcome: Result<String, AppError>) -> bool {
    match argon2_encoded(encode_utf8(password), salt) {
        Some(encoded) => outcome matches Ok(h) && h@ == encoded,
        None => outcome is Err,
    }
}

/// A password verifies against every hash that was made from it, whatever
/// the salt.
pub proof fn lemma_hash_verifies(password: Seq<char>, encoded: Seq<char>)
    requires
        is_hash_of(password, encoded),
    ensures
        password_check(password, encoded) == Some(true),
{
    let salt = choose|salt: Seq<char>| #[trigger] hashed(password, salt, encoded);
    assert(hashed(password, salt, encoded));
}

/// A fresh salt, as B64 text.
///
/// Calls `SaltString::generate` with the operating system's random
/// generator. Nothing is claimed of the text: it differs from call to call.
#[verifier::external_body]
fn fresh_salt() -> String {
    SaltString::generate(&mut OsRng).as_str().to_owned()
}

/// Hashes `password` under `salt`.
///
/// Calls `SaltString::from_b64` on the salt and
/// `Argon2::default().hash_password` on password and salt, and renders the
/// result as a PHC string; the error of either call is the error returned.
/// The result is a function of the two arguments, which the contract
/// names. The contract also claims of Argon2 what password hashing is
/// for: a string that comes out parses again, and verifying the same
/// password against it succeeds, since verification recomputes the output
/// from the parameters and salt written into the string.
#[verifier::external_body]
fn argon2_hash(password: &[u8], salt: &str) -> (hashed: Result<String, argon2::password_hash::Error>)
    ensures
        match hashed {
            Ok(encoded) => {
                &&& argon2_encoded(password@, salt@) == Some(encoded@)
                &&& phc_parses(encoded@)
                &&& argon2_accepts(password@, encoded@)
            },
            Err(_) => argon2_encoded(password@, salt@) is None,
        },
{
    let salt = SaltString::from_b64(salt)?;
    Argon2::default().hash_password(password, &salt).map(|hash| hash.to_string())
}

/// Checks `password` against the PHC string `encoded`.
///
/// Calls `PasswordHash::new`, whose failure is the outer error, and then
/// `Argon2::default().verify_password`, whose result is handed on as it
/// is: it succeeds exactly when the output recomputed from the password
/// equals the stored one.
#[verifier::external_body]
fn argon2_verify(password: &[u8], encoded: &str) -> (checked: Result<
    Result<(), argon2::password_hash::Error>,
    argon2::password_hash::Error,
>)
    ensures
        checked is Ok <==> phc_parses(encoded@),
        checked matches Ok(verified) ==> (verified is Ok <==> argon2_accepts(password@, encoded@)),
{
    let parsed = PasswordHash::new(encoded)?;
    Ok(Argon2::default().verify_password(password, &parsed))
}

/// The text of a hashing error. Calls the error's `Display`.
#[verifier::external_body]
fn hash_error_text(error: &argon2::password_hash::Error) -> String {
    error.to_string()
}

/// Turns what the hashing primitive returned into the library's result:
/// the encoded hash unchanged, or a password-hashing error.
pub fn hashing_outcome(hashed: Result<String, argon2::password_hash::Error>) -> (outcome: Result<
    String,
    AppError,
>)
    ensures
        match hashed {
            Ok(encoded) => outcome == Ok::<String, AppError>(encoded),
            Err(_) => outcome matches Err(e) && (e@ matches AppErrorView::PasswordHashingError(m)
                && starts_with(m, "Password hashing error: "@)),
        },
{
    match hashed {
        Ok(encoded) => Ok(encoded),
        Err(error) => {
            let detail = hash_error_text(&error);
            Err(AppError::PasswordHashingError(prefixed("Password hashing error: ", detail.as_str())))
        },
    }
}

/// Turns what the verifying primitive returned into the library's result:
/// a password that does not match is an ordinary `false`, whatever the
/// primitive gave as its reason, and only a stored text that does not
/// parse is an error.
pub fn verification_outcome(
    checked: Result<Result<(), argon2::password_hash::Error>, argon2::password_hash::Error>,
) -> (outcome: Result<bool, AppError>)
    ensures
        match checked {
            Ok(verified) => outcome == Ok::<bool, AppError>(verified is Ok),
            Err(_) => outcome matches Err(e) && (e@ matches AppErrorView::PasswordHashingError(m)
                && starts_with(m, "Password parsing error: "@)),
        },
{
    match checked {
        Ok(Ok(())) => Ok(true),
        Ok(Err(_)) => Ok(false),
        Err(error) => {
            let detail = hash_error_text(&error);
            Err(AppError::PasswordHashingError(prefixed("Password parsing error: ", detail.as_str())))
        },
    }
}

/// Hashes `password` under the given salt.
///
/// The result is fixed by the two arguments. Whatever comes out verifies
/// the password it was made from.
pub fn hash_password_with_salt(password: &str, salt: &str) -> (outcome: Result<String, AppError>)
    ensures
        hashing_result(password@, salt@, outcome),
        match outcome {
            Ok(h) => hashed(password@, salt@, h@) && password_check(password@, h@) == Some(true),
            Err(e) => e@ is PasswordHashingError,
        },
{
    hashing_outcome(argon2_hash(password.as_bytes(), salt))
}

/// Hashes `password` under a salt drawn for this call.
///
/// The outcome is what hashing under the drawn salt gives: the function
/// fails only where Argon2 refuses password and salt. Every hash that
/// comes out is the hash of `password` under some salt, and verifies
/// `password`.
pub fn hash_password(password: &str) -> (outcome: Result<String, AppError>)
    ensures
        exists|salt: Seq<char>| #[trigger] hashing_result(password@, salt, outcome),
        match outcome {
            Ok(h) => is_hash_of(password@, h@) && password_check(password@, h@) == Some(true),
            Err(e) => e@ is PasswordHashingError,
        },
{
    let salt = fresh_salt();
    let outcome = hash_password_with_salt(password, salt.as_str());
    assert(hashing_result(password@, salt@, outcome));
    proof {
        if let Ok(h) = &outcome {
            assert(hashed(password@, salt@, h@));
        }
    }
    outcome
}

/// Checks `password` against a stored hash.
///
/// `Ok(true)` and `Ok(false)` say whether the password is the one that was
/// hashed. An error comes exactly when the stored text is no PHC string.
pub fn verify_password(password: &str, password_hash: &str) -> (outcome: Result<bool, AppError>)
    ensures
        match password_check(password@, password_hash@) {
            Some(accepted) => outcome == Ok::<bool, AppError>(accepted),
            None => outcome matches Err(e) && (e@ matches AppErrorView::PasswordHashingError(m)
                && starts_with(m, "Password parsing error: "@)),
        },
{
    verification_outcome(argon2_verify(password.as_bytes(), password_hash))
}

} // verus!
