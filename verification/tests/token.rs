use coin_backend::error::AppError;

use coin_backend::auth::create_jwt;
use coin_backend::auth::issue_token_at;
use coin_backend::auth::verify_jwt;
use coin_backend::auth::verify_token_at;
use coin_backend::auth::Role;
use coin_backend::auth::JWT_EXPIRATION;

const SECRET: &str = "unit-test-secret";
const NOW: i64 = 1_700_000_000;

#[test]
fn issue_then_verify_returns_the_claims() {
    let token = issue_token_at("admin-17", "boss@srec.ac.in", Role::Admin, SECRET, NOW);
    let claims = verify_token_at(&token, SECRET, NOW + 60).unwrap();
    assert_eq!(claims.sub, "admin-17");
    assert_eq!(claims.email, "boss@srec.ac.in");
    assert_eq!(claims.role, Role::Admin);
    assert_eq!(claims.exp, NOW + JWT_EXPIRATION);
}

#[test]
fn student_token_round_trips_too() {
    let token = issue_token_at("stu-1", "s@srec.ac.in", Role::Student, SECRET, NOW);
    let claims = verify_token_at(&token, SECRET, NOW).unwrap();
    assert_eq!(claims.role, Role::Student);
    assert_eq!(claims.sub, "stu-1");
}

#[test]
fn wrong_secret_is_rejected() {
    let token = issue_token_at("admin-17", "boss@srec.ac.in", Role::Admin, SECRET, NOW);
    let err = verify_token_at(&token, "a different secret", NOW).unwrap_err();
    match err {
        AppError::Unauthorized(m) => assert_eq!(m, "Invalid token"),
        other => panic!("unexpected error: {:?}", other),
    }
}

#[test]
fn truncated_token_is_rejected() {
    let token = issue_token_at("admin-17", "boss@srec.ac.in", Role::Admin, SECRET, NOW);
    let truncated = &token[..token.len() - 2];
    assert!(verify_token_at(truncated, SECRET, NOW).is_err());
}

#[test]
fn garbage_token_is_rejected() {
    assert!(verify_token_at("definitely.not.ajwt", SECRET, NOW).is_err());
    assert!(verify_token_at("", SECRET, NOW).is_err());
}

#[test]
fn expired_token_is_rejected() {
    let token = issue_token_at("admin-17", "boss@srec.ac.in", Role::Admin, SECRET, NOW);
    let err = verify_token_at(&token, SECRET, NOW + JWT_EXPIRATION).unwrap_err();
    match err {
        AppError::Unauthorized(m) => assert_eq!(m, "Invalid token"),
        other => panic!("unexpected error: {:?}", other),
    }
}

#[test]
fn last_instant_before_expiry_still_verifies() {
    let token = issue_token_at("admin-17", "boss@srec.ac.in", Role::Admin, SECRET, NOW);
    assert!(verify_token_at(&token, SECRET, NOW + JWT_EXPIRATION - 1).is_ok());
}

#[test]
fn clock_based_issue_and_verify_round_trip() {
    let token = create_jwt("id-1", "a@srec.ac.in", Role::Admin, SECRET).unwrap();
    let claims = verify_jwt(&token, SECRET).unwrap();
    assert_eq!(claims.sub, "id-1");
    assert_eq!(claims.email, "a@srec.ac.in");
    assert_eq!(claims.role, Role::Admin);
}
