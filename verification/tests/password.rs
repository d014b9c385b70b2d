use coin_backend::error::AppError;

use coin_backend::auth::hash_password;
use coin_backend::auth::verify_password;

#[test]
fn hash_then_verify_succeeds() {
    let digest = hash_password("correct horse battery staple").unwrap();
    assert_eq!(
        verify_password("correct horse battery staple", &digest).unwrap(),
        true
    );
}

#[test]
fn wrong_password_fails_verification() {
    let digest = hash_password("one password").unwrap();
    assert_eq!(verify_password("another password", &digest).unwrap(), false);
}

#[test]
fn two_hashes_of_same_password_differ_yet_both_verify() {
    let d1 = hash_password("repeatable").unwrap();
    let d2 = hash_password("repeatable").unwrap();
    assert_ne!(d1, d2);
    assert_eq!(verify_password("repeatable", &d1).unwrap(), true);
    assert_eq!(verify_password("repeatable", &d2).unwrap(), true);
}

#[test]
fn empty_password_round_trips() {
    let digest = hash_password("").unwrap();
    assert_eq!(verify_password("", &digest).unwrap(), true);
    assert_eq!(verify_password("x", &digest).unwrap(), false);
}

#[test]
fn malformed_digest_is_an_error_not_a_mismatch() {
    let err = verify_password("whatever", "not a phc digest").unwrap_err();
    match err {
        AppError::InternalError(m) => assert_eq!(m, "Invalid password hash"),
        other => panic!("unexpected error: {:?}", other),
    }
}

#[test]
fn digest_looks_like_argon2_phc_string() {
    let digest = hash_password("pw").unwrap();
    assert!(digest.starts_with("$argon2"));
}
