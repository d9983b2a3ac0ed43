use forum_backend::auth::password::{
    hash_password, hash_password_with_salt, hashing_outcome, verification_outcome, verify_password,
};
use forum_backend::error::AppError;

#[test]
fn hash_then_verify_accepts_the_password() {
    let hash = hash_password("secret123").unwrap();
    assert_eq!(verify_password("secret123", &hash), Ok(true));
}

#[test]
fn verify_rejects_another_password() {
    let hash = hash_password("secret123").unwrap();
    assert_eq!(verify_password("secret124", &hash), Ok(false));
}

#[test]
fn hashing_twice_gives_two_strings_that_both_verify() {
    let first = hash_password("correct horse").unwrap();
    let second = hash_password("correct horse").unwrap();
    assert_ne!(first, second);
    assert_eq!(verify_password("correct horse", &first), Ok(true));
    assert_eq!(verify_password("correct horse", &second), Ok(true));
}

#[test]
fn hash_is_self_describing() {
    let hash = hash_password_with_salt("secret123", "c29tZXNhbHRzb21lc2FsdA").unwrap();
    assert!(hash.starts_with("$argon2id$v=19$m=19456,t=2,p=1$c29tZXNhbHRzb21lc2FsdA$"));
    assert_ne!(hash, "secret123");
    assert_eq!(hash, hash_password_with_salt("secret123", "c29tZXNhbHRzb21lc2FsdA").unwrap());
}

#[test]
fn malformed_stored_hash_is_an_error() {
    match verify_password("secret123", "not a hash") {
        Err(AppError::PasswordHashingError(m)) => assert!(m.starts_with("Password parsing error: ")),
        other => panic!("unexpected outcome: {:?}", other),
    }
}

#[test]
fn invalid_salt_is_a_hashing_error() {
    match hash_password_with_salt("secret123", "!") {
        Err(AppError::PasswordHashingError(m)) => assert!(m.starts_with("Password hashing error: ")),
        other => panic!("unexpected outcome: {:?}", other),
    }
}

#[test]
fn outcome_of_hashing_keeps_the_hash_and_wraps_the_failure() {
    assert_eq!(hashing_outcome(Ok("$argon2id$x".to_string())), Ok("$argon2id$x".to_string()));
    match hashing_outcome(Err(argon2::password_hash::Error::SaltInvalid(
        argon2::password_hash::errors::InvalidValue::TooShort,
    ))) {
        Err(AppError::PasswordHashingError(m)) => assert!(m.starts_with("Password hashing error: ")),
        other => panic!("unexpected outcome: {:?}", other),
    }
}

#[test]
fn outcome_of_verification_tells_mismatch_from_corruption() {
    assert_eq!(verification_outcome(Ok(Ok(()))), Ok(true));
    assert_eq!(verification_outcome(Ok(Err(argon2::password_hash::Error::Password))), Ok(false));
    assert_eq!(verification_outcome(Ok(Err(argon2::password_hash::Error::Algorithm))), Ok(false));
    match verification_outcome(Err(argon2::password_hash::Error::PhcStringField)) {
        Err(AppError::PasswordHashingError(m)) => assert!(m.starts_with("Password parsing error: ")),
        other => panic!("unexpected outcome: {:?}", other),
    }
}

#[test]
fn hash_of_another_scheme_never_matches() {
    assert_eq!(
        verify_password("secret123", "$scrypt$ln=16,r=8,p=1$aM15713r3Xsvxbi31lqr1Q$nFNh2CVHVjNldFVKDHDlm4CbdRSCdEBsjjJxD+iCs5E"),
        Ok(false)
    );
}
